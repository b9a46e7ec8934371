pub mod characters;
pub mod lobby;
pub mod room;
pub mod utils;

use vstd::prelude::*;

verus! {

/// A page: its title and its content.
#[derive(Debug)]
pub struct Page {
    pub title: String,
    pub content: String,
}

/// The title of the index page.
pub const INDEX_TITLE: &'static str = "RDND";

/// The content of the index page: a list that loads the rooms.
pub const INDEX_CONTENT: &'static str = "<div hx-get='/c/rooms' hx-trigger='load'></div>";

/// What a page shows when it cannot be rendered.
pub const PAGE_RENDER_ERROR: &'static str = "Couldn't render page";

/// What the index page shows when it cannot be rendered.
pub const INDEX_RENDER_ERROR: &'static str = "could not render page";

impl Page {
    pub fn new(title: &str, content: &str) -> (p: Page)
        ensures
            p.title@ == title@,
            p.content@ == content@,
    {
        Page { title: title.to_owned(), content: content.to_owned() }
    }
}

/// The index page.
pub fn index() -> (p: Page)
    ensures
        p.title@ == INDEX_TITLE@,
        p.content@ == INDEX_CONTENT@,
{
    Page::new(INDEX_TITLE, INDEX_CONTENT)
}

} // verus!
