//! Callbacks that scripts register for the launch and the termination of
//! applications, and the applications they are told about.
use crate::text::str_eq;
use vstd::prelude::*;

verus! {

/// An application that was launched or terminated.
#[derive(Debug, Clone)]
pub struct ObservedApp {
    pub pid: i32,
    pub bundle_id: String,
}

/// The application a workspace notification names: one with a bundle
/// identifier and a positive process id.
pub fn observed_app_from_parts(pid: i32, bundle_id: Option<String>) -> (r: Option<ObservedApp>)
    ensures
        match r {
            Some(app) => pid > 0 && (bundle_id matches Some(b) && app.pid == pid && app.bundle_id == b),
            None => pid <= 0 || bundle_id is None,
        },
{
    let bundle_id = match bundle_id {
        Some(b) => b,
        None => {
            return None;
        },
    };
    if pid <= 0 {
        return None;
    }
    Some(ObservedApp { pid, bundle_id })
}

/// A registered callback, with the application it is for.
#[derive(Debug, Clone)]
pub struct AppLifecycleCallbackEntry<C> {
    pub bundle_id: String,
    pub callback: C,
}

/// The registered launch and terminate callbacks, in the order registered.
#[derive(Debug)]
pub struct AppLifecycleCallbacks<C> {
    pub launch: Vec<AppLifecycleCallbackEntry<C>>,
    pub terminate: Vec<AppLifecycleCallbackEntry<C>>,
}

/// The callbacks of the entries registered for the application, in order.
pub open spec fn callbacks_for<C>(entries: Seq<AppLifecycleCallbackEntry<C>>, bundle_id: Seq<char>) -> Seq<C>
    decreases entries.len(),
{
    if entries.len() == 0 {
        Seq::empty()
    } else {
        let rest = callbacks_for(entries.drop_last(), bundle_id);
        if entries.last().bundle_id@ == bundle_id {
            rest.push(entries.last().callback)
        } else {
            rest
        }
    }
}

fn matching_callbacks<C: Clone>(entries: &Vec<AppLifecycleCallbackEntry<C>>, bundle_id: &str) -> (r: Vec<C>)
    ensures
        r@.len() == callbacks_for(entries@, bundle_id@).len(),
        forall|i: int| 0 <= i < r@.len() ==> vstd::pervasive::cloned(callbacks_for(entries@, bundle_id@)[i], #[trigger] r@[i]),
{
    let n = entries.len();
    let mut out: Vec<C> = Vec::new();
    let mut i: usize = 0;
    while i < n
        invariant
            n == entries@.len(),
            i <= n,
            out@.len() == callbacks_for(entries@.take(i as int), bundle_id@).len(),
            forall|j: int| 0 <= j < out@.len() ==> vstd::pervasive::cloned(callbacks_for(entries@.take(i as int), bundle_id@)[j], #[trigger] out@[j]),
        decreases n - i,
    {
        let ghost t = entries@.take(i as int + 1);
        assert(t.drop_last() =~= entries@.take(i as int));
        assert(t.last() == entries@[i as int]);
        if str_eq(entries[i].bundle_id.as_str(), bundle_id) {
            let c = entries[i].callback.clone();
            out.push(c);
        }
        i = i + 1;
    }
    assert(entries@.take(n as int) =~= entries@);
    out
}

impl<C> AppLifecycleCallbacks<C> {
    pub fn new() -> (r: AppLifecycleCallbacks<C>)
        ensures
            r.launch@.len() == 0,
            r.terminate@.len() == 0,
    {
        AppLifecycleCallbacks { launch: Vec::new(), terminate: Vec::new() }
    }

    /// Registers a callback for the launch of the application.
    pub fn register_app_launch_handler(&mut self, bundle_id: String, callback: C)
        ensures
            final(self).launch@ == old(self).launch@.push(AppLifecycleCallbackEntry { bundle_id, callback }),
            final(self).terminate@ == old(self).terminate@,
    {
        self.launch.push(AppLifecycleCallbackEntry { bundle_id, callback });
    }

    /// Registers a callback for the termination of the application.
    pub fn register_app_terminate_handler(&mut self, bundle_id: String, callback: C)
        ensures
            final(self).terminate@ == old(self).terminate@.push(
                AppLifecycleCallbackEntry { bundle_id, callback },
            ),
            final(self).launch@ == old(self).launch@,
    {
        self.terminate.push(AppLifecycleCallbackEntry { bundle_id, callback });
    }

    /// Whether a launch is to be dispatched at all.
    pub fn has_launch_callbacks(&self) -> (r: bool)
        ensures
            r == (self.launch@.len() > 0),
    {
        self.launch.len() > 0
    }

    /// Whether a termination is to be dispatched at all.
    pub fn has_terminate_callbacks(&self) -> (r: bool)
        ensures
            r == (self.terminate@.len() > 0),
    {
        self.terminate.len() > 0
    }
}

impl<C: Clone> AppLifecycleCallbacks<C> {
    /// The launch callbacks to call for an application, in the order registered.
    pub fn launch_callbacks(&self, app: &ObservedApp) -> (r: Vec<C>)
        ensures
            r@.len() == callbacks_for(self.launch@, app.bundle_id@).len(),
            forall|i: int| 0 <= i < r@.len() ==> vstd::pervasive::cloned(callbacks_for(self.launch@, app.bundle_id@)[i], #[trigger] r@[i]),
    {
        matching_callbacks(&self.launch, app.bundle_id.as_str())
    }

    /// The terminate callbacks to call for an application, in the order registered.
    pub fn terminate_callbacks(&self, app: &ObservedApp) -> (r: Vec<C>)
        ensures
            r@.len() == callbacks_for(self.terminate@, app.bundle_id@).len(),
            forall|i: int| 0 <= i < r@.len() ==> vstd::pervasive::cloned(callbacks_for(self.terminate@, app.bundle_id@)[i], #[trigger] r@[i]),
    {
        matching_callbacks(&self.terminate, app.bundle_id.as_str())
    }
}

/// Forgets all registered callbacks.
pub fn clear_callbacks<C>(callbacks: &mut AppLifecycleCallbacks<C>)
    ensures
        final(callbacks).launch@.len() == 0,
        final(callbacks).terminate@.len() == 0,
{
    callbacks.launch = Vec::new();
    callbacks.terminate = Vec::new();
}

/// A callback registered for an application is among those called when it
/// launches; after clearing, none is.
pub proof fn lemma_registered_callback_called<C>(
    entries: Seq<AppLifecycleCallbackEntry<C>>,
    e: AppLifecycleCallbackEntry<C>,
)
    ensures
        callbacks_for(entries.push(e), e.bundle_id@) == callbacks_for(entries, e.bundle_id@).push(e.callback),
        forall|b: Seq<char>| b != e.bundle_id@ ==> #[trigger] callbacks_for(entries.push(e), b) == callbacks_for(entries, b),
        forall|b: Seq<char>| #[trigger] callbacks_for(Seq::<AppLifecycleCallbackEntry<C>>::empty(), b).len() == 0,
{
    assert(entries.push(e).drop_last() =~= entries);
}

} // verus!
