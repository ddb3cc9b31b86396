use vstd::prelude::*;
use vstd::string::*;

verus! {

/// The two kinds of session the timer can run.
#[derive(Clone, Copy, Debug, PartialEq, Eq, Structural)]
pub enum Mode {
    Focus,
    Rest,
}

impl Mode {
    /// The mode's name as it appears in banners and notification text.
    pub open spec fn spec_name(self) -> Seq<char> {
        match self {
            Mode::Focus => "focus"@,
            Mode::Rest => "rest"@,
        }
    }

    /// Human-readable name of the mode.
    pub fn as_str(&self) -> (r: &'static str)
        ensures
            r@ == self.spec_name(),
    {
        match self {
            Mode::Focus => "focus",
            Mode::Rest => "rest",
        }
    }

    /// Body text of the desktop notification fired when a session of this
    /// mode completes.
    pub fn completion_body(&self) -> (r: String)
        ensures
            r@ == "Your "@ + self.spec_name() + " session is complete."@,
    {
        let mut text = String::from_str("Your ");
        text.append(self.as_str());
        text.append(" session is complete.");
        text
    }
}

} // verus!
