//! A notification service that only writes to the log.
use vstd::prelude::*;
use crate::notifications::Notifier;

verus! {

#[derive(Clone, Debug)]
pub struct LogNotifier {}

impl LogNotifier {
    pub fn new() -> (n: LogNotifier) {
        LogNotifier {}
    }
}

impl Notifier for LogNotifier {
    fn name(&self) -> (r: &'static str)
        ensures
            r@ == "Log"@,
    {
        "Log"
    }
}

} // verus!
