//! Data carried by the overlay components; the drawing itself lives
//! outside the store.

use vstd::prelude::*;

verus! {

/// What the messagebox overlay shows: its text and the optional icon.
#[derive(Clone, Debug)]
pub struct MessageboxModalComponentProps {
    pub message: Option<String>,
    pub show_icons: bool,
    pub icon: String,
}

impl MessageboxModalComponentProps {
    pub fn new(message: String, show_icons: bool, icon: String) -> (r: Self)
        ensures
            r.message == Some(message),
            r.show_icons == show_icons,
            r.icon == icon,
    {
        MessageboxModalComponentProps { message: Some(message), show_icons, icon }
    }
}

impl Default for MessageboxModalComponentProps {
    fn default() -> (r: Self)
        ensures
            r.message is None,
            r.show_icons == false,
            r.icon@.len() == 0,
    {
        MessageboxModalComponentProps {
            message: None,
            show_icons: false,
            icon: String::new(),
        }
    }
}

} // verus!
