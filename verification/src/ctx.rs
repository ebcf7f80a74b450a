//! What each page hands to its template.

use crate::shortcode::ShortCode;
use vstd::prelude::*;

verus! {

/// The context of a page: its title and the templates it is rendered with.
pub trait PageContext {
    fn title(&self) -> &str;

    fn template_path(&self) -> &str;

    fn parent(&self) -> &str;
}

/// The home page.
#[derive(Debug)]
pub struct Home {}

impl Default for Home {
    fn default() -> (home: Home) {
        Home {  }
    }
}

impl PageContext for Home {
    fn title(&self) -> (text: &str)
        ensures
            text@ == "Clipboard Stash"@,
    {
        "Clipboard Stash"
    }

    fn template_path(&self) -> (text: &str)
        ensures
            text@ == "home"@,
    {
        "home"
    }

    fn parent(&self) -> (text: &str)
        ensures
            text@ == "base"@,
    {
        "base"
    }
}

/// The page that asks for the password of a clip.
#[derive(Debug)]
pub struct PasswordRequired {
    shortcode: ShortCode,
}

impl View for PasswordRequired {
    type V = Seq<char>;

    closed spec fn view(&self) -> Seq<char> {
        self.shortcode@
    }
}

impl PasswordRequired {
    /// The page that asks for the password of the clip named `shortcode`.
    pub fn new(shortcode: ShortCode) -> (page: PasswordRequired)
        ensures
            page@ == shortcode@,
    {
        PasswordRequired { shortcode }
    }

    /// The clip that the page asks the password for.
    pub fn shortcode(&self) -> (shortcode: &ShortCode)
        ensures
            shortcode@ == self@,
    {
        &self.shortcode
    }
}

impl PageContext for PasswordRequired {
    fn title(&self) -> (text: &str)
        ensures
            text@ == "Password required"@,
    {
        "Password required"
    }

    fn template_path(&self) -> (text: &str)
        ensures
            text@ == "clip_need_password"@,
    {
        "clip_need_password"
    }

    fn parent(&self) -> (text: &str)
        ensures
            text@ == "base"@,
    {
        "base"
    }
}

} // verus!
