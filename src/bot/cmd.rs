use vstd::prelude::*;

verus! {

/// The commands a user can send.
#[derive(Clone, Debug)]
pub enum Command {
    /// Show the list of commands.
    Help,
    /// Replace the user's token with a new one.
    SignIn { token: String },
    /// Fetch the application's current state.
    Get,
    /// Choose how often the state is polled.
    Interval,
    /// Forget the user's token and stop polling.
    SignOut,
}

} // verus!
