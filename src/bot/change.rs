use crate::tencent::model::ApplicationProgress;
use vstd::prelude::*;

verus! {

/// A change worth telling the user about.
#[derive(Clone, Debug)]
pub enum StatusChange {
    /// The application's state differs from the one seen before; it carries
    /// the new state.
    Progress(ApplicationProgress),
    /// The site no longer accepts the user's token.
    Expiry,
}

} // verus!
