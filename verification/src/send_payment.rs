//! The answer to a payment, and its boundary form.

use vstd::prelude::*;
use vstd::std_specs::convert::FromSpecImpl;

verus! {

/// What the provider answers once a payment is made.
#[derive(Debug, PartialEq, Eq)]
pub struct SendPaymentResponse {
    /// Preimage of the payment, its proof.
    pub preimage: String,
}

/// Mathematical model of a [`SendPaymentResponse`].
pub struct SendPaymentResponseView {
    pub preimage: Seq<char>,
}

impl View for SendPaymentResponse {
    type V = SendPaymentResponseView;

    open spec fn view(&self) -> SendPaymentResponseView {
        SendPaymentResponseView { preimage: self.preimage@ }
    }
}

/// Boundary form of a [`SendPaymentResponse`].
#[derive(Debug, PartialEq, Eq)]
pub struct JsSendPaymentResponse {
    inner: SendPaymentResponse,
}

impl View for JsSendPaymentResponse {
    type V = SendPaymentResponseView;

    closed spec fn view(&self) -> SendPaymentResponseView {
        self.inner@
    }
}

impl From<SendPaymentResponse> for JsSendPaymentResponse {
    fn from(inner: SendPaymentResponse) -> (response: Self)
        ensures
            response@ == inner@,
    {
        Self { inner }
    }
}

impl FromSpecImpl<SendPaymentResponse> for JsSendPaymentResponse {
    open spec fn obeys_from_spec() -> bool {
        true
    }

    closed spec fn from_spec(inner: SendPaymentResponse) -> Self {
        Self { inner }
    }
}

impl JsSendPaymentResponse {
    /// A copy of the preimage, unchanged.
    pub fn preimage(&self) -> (preimage: String)
        ensures
            preimage@ == self@.preimage,
    {
        self.inner.preimage.clone()
    }
}

} // verus!
