//! Installing the process-wide trace subscriber.

use vstd::prelude::*;
use crate::error::{Error, ErrorView};

verus! {

/// Takes note that the subscriber has been registered as the global default
/// of the process. `installed` tells whether the registration succeeded; it
/// succeeds once per process, so this is to be called once.
pub fn init_subscriber(installed: bool)
    requires
        installed,
{
}

/// Judges the registration of a subscriber before it is relied on: where it
/// succeeded, it is taken note of; where a subscriber had been registered
/// before, that is the error.
pub fn try_init_subscriber(installed: bool) -> (result: Result<(), Error>)
    ensures
        result is Ok <==> installed,
        result matches Err(e) ==> e@ == ErrorView::SubscriberAlreadySet,
{
    if installed {
        init_subscriber(installed);
        Ok(())
    } else {
        Err(Error::SubscriberAlreadySet)
    }
}

} // verus!
