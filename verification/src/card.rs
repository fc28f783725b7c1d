use vstd::prelude::*;

verus! {

/// One collectible card as the catalog publishes it, together with how many
/// copies the viewing user owns.
///
/// `link` uses the empty string as the "no external link" sentinel.
#[derive(Debug)]
pub struct GeneratedCard {
    pub name: String,
    pub image: String,
    pub category: String,
    pub set: String,
    pub theme: String,
    pub id: String,
    pub quantity: u16,
    pub link: String,
}

impl Clone for GeneratedCard {
    fn clone(&self) -> (res: Self)
        ensures
            res == *self,
    {
        GeneratedCard {
            name: self.name.clone(),
            image: self.image.clone(),
            category: self.category.clone(),
            set: self.set.clone(),
            theme: self.theme.clone(),
            id: self.id.clone(),
            quantity: self.quantity,
            link: self.link.clone(),
        }
    }
}

} // verus!
