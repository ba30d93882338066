use vstd::prelude::*;

verus! {

/// A priced item record as the market service returns it.
#[derive(Debug, Clone)]
pub struct Item {
    pub uid: String,
    pub name: String,
    pub short_name: String,
    pub price: i32,
    pub avg_24h_price: i32,
    pub avg_7days_price: i32,
    pub trader_name: String,
    pub trader_price: i32,
    pub icon: String,
    pub img: String,
    pub img_big: String,
    pub bsg_id: String,
    pub is_functional: bool,
    pub tags: Vec<String>,
    pub updated: String,
}

/// The image an item's template is taken from: the small icon when there is
/// one, else the larger image, else none.
pub open spec fn image_url_of(icon: Seq<char>, img: Seq<char>) -> Option<Seq<char>> {
    if icon.len() > 0 {
        Some(icon)
    } else if img.len() > 0 {
        Some(img)
    } else {
        None
    }
}

impl Item {
    /// The URL to download this item's template from, preferring the icon.
    pub fn image_url(&self) -> (r: Option<&String>)
        ensures
            r matches Some(u) ==> image_url_of(self.icon@, self.img@) == Some(u@),
            r is None ==> image_url_of(self.icon@, self.img@) is None,
    {
        if self.icon.as_str().unicode_len() > 0 {
            Some(&self.icon)
        } else if self.img.as_str().unicode_len() > 0 {
            Some(&self.img)
        } else {
            None
        }
    }
}

} // verus!
