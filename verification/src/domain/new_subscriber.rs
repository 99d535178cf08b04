use vstd::prelude::*;

verus! {

/// A subscriber whose name and address passed validation.
#[derive(Debug)]
pub struct NewSubscriber {
    pub email: crate::domain::SubscriberEmail,
    pub name: crate::domain::SubscriberName,
}

} // verus!
