//! Following the frontmost application: what the app does when another
//! application is activated.
use vstd::prelude::*;

verus! {

/// The bundle identifier that an app records as that of the frontmost
/// application, if any (a value of specifications only).
pub type RecordedId = Option<Seq<char>>;

/// What is told about the frontmost application.
pub trait FrontmostApp {
    /// The bundle identifier recorded as that of the frontmost application.
    spec fn recorded(&self) -> RecordedId;

    /// The bundle identifier that the app last reacted to, if any.
    spec fn reacted_to(&self) -> RecordedId;

    /// Records the bundle identifier of the application now frontmost.
    fn set_frontmost(&mut self, new_value: &str)
        ensures
            final(self).recorded() == Some(new_value@),
            final(self).reacted_to() == old(self).reacted_to(),
    ;

    /// Reacts to the recorded identifier, which stays.
    fn update(&mut self)
        ensures
            final(self).recorded() == old(self).recorded(),
            final(self).reacted_to() == old(self).recorded(),
    ;
}

/// Watches for applications being activated.
pub struct Detector;

impl Detector {
    /// An application was activated: if it has a bundle identifier, the
    /// frontmost application is set to it, and then the app reacts to it;
    /// otherwise nothing is done.
    pub fn application_activated<A: FrontmostApp>(app: &mut A, bundle_identifier: Option<&str>)
        ensures
            match bundle_identifier {
                Some(b) => final(app).recorded() == Some(b@) && final(app).reacted_to() == Some(b@),
                None => *final(app) == *old(app),
            },
    {
        if let Some(bundle_identifier) = bundle_identifier {
            app.set_frontmost(bundle_identifier);
            app.update();
        }
    }
}

} // verus!
