//! Calls in flight: what one operation of the client asks of the provider,
//! and what it hands to the caller once the provider has answered.
//!
//! The client starts a call and the embedding performs it: it asks the
//! handle of the call for the operation the call names, with what the call
//! carries, and hands the provider's answer to `settle`. `settle` takes the
//! call by value, so that a call is settled once.

use vstd::prelude::*;
use crate::error::{boundary_error, into_err, Error, JsError, JsErrorKind};
use crate::get_info::{GetInfoResponse, JsGetInfoResponse};
use crate::keysend::{KeysendArgs, KeysendArgsView};
use crate::send_payment::{JsSendPaymentResponse, SendPaymentResponse};

verus! {

/// Mathematical model of a call in flight: the handle that it is to be
/// performed on, and what it carries to the provider.
pub struct CallView<H, A> {
    pub handle: H,
    pub args: A,
}

/// A question in flight: is the provider enabled?
#[must_use]
pub struct IsEnabledCall<'a, H> {
    handle: &'a H,
}

impl<'a, H> View for IsEnabledCall<'a, H> {
    type V = CallView<H, ()>;

    closed spec fn view(&self) -> CallView<H, ()> {
        CallView { handle: *self.handle, args: () }
    }
}

impl<'a, H> IsEnabledCall<'a, H> {
    /// The call on `handle`.
    pub(crate) fn new(handle: &'a H) -> (call: Self)
        ensures
            call@ == (CallView { handle: *handle, args: () }),
    {
        Self { handle }
    }

    /// The handle to ask.
    pub fn handle(&self) -> (handle: &'a H)
        ensures
            *handle == self@.handle,
    {
        self.handle
    }

    /// What the caller gets for the provider's answer: the answer where
    /// there is one, and `false` where the provider failed. This never
    /// fails.
    pub fn settle(self, outcome: Result<bool, Error>) -> (enabled: bool)
        ensures
            enabled == match outcome {
                Ok(answer) => answer,
                Err(_) => false,
            },
    {
        match outcome {
            Ok(enabled) => enabled,
            Err(_) => false,
        }
    }
}

/// A request in flight to enable the provider.
#[must_use]
pub struct EnableCall<'a, H> {
    handle: &'a H,
}

impl<'a, H> View for EnableCall<'a, H> {
    type V = CallView<H, ()>;

    closed spec fn view(&self) -> CallView<H, ()> {
        CallView { handle: *self.handle, args: () }
    }
}

impl<'a, H> EnableCall<'a, H> {
    /// The call on `handle`.
    pub(crate) fn new(handle: &'a H) -> (call: Self)
        ensures
            call@ == (CallView { handle: *handle, args: () }),
    {
        Self { handle }
    }

    /// The handle to ask.
    pub fn handle(&self) -> (handle: &'a H)
        ensures
            *handle == self@.handle,
    {
        self.handle
    }

    /// What the caller gets for the provider's answer: nothing where the
    /// provider was enabled, and where it was not, the provider's failure
    /// as an `EnableError`.
    pub fn settle(self, outcome: Result<(), Error>) -> (settled: Result<(), JsError>)
        ensures
            match outcome {
                Ok(_) => settled is Ok,
                Err(error) => settled is Err && settled->Err_0@ == boundary_error(
                    JsErrorKind::EnableError,
                    error@,
                ),
            },
    {
        match outcome {
            Ok(_) => Ok(()),
            Err(error) => Err(into_err(JsErrorKind::EnableError, error)),
        }
    }
}

/// A request in flight for information about the node.
#[must_use]
pub struct GetInfoCall<'a, H> {
    handle: &'a H,
}

impl<'a, H> View for GetInfoCall<'a, H> {
    type V = CallView<H, ()>;

    closed spec fn view(&self) -> CallView<H, ()> {
        CallView { handle: *self.handle, args: () }
    }
}

impl<'a, H> GetInfoCall<'a, H> {
    /// The call on `handle`.
    pub(crate) fn new(handle: &'a H) -> (call: Self)
        ensures
            call@ == (CallView { handle: *handle, args: () }),
    {
        Self { handle }
    }

    /// The handle to ask.
    pub fn handle(&self) -> (handle: &'a H)
        ensures
            *handle == self@.handle,
    {
        self.handle
    }

    /// What the caller gets for the provider's answer: the information in
    /// boundary form, with nothing lost, and where the provider failed, its
    /// failure as a `GetInfoError`.
    pub fn settle(
        self,
        outcome: Result<GetInfoResponse, Error>,
    ) -> (settled: Result<JsGetInfoResponse, JsError>)
        ensures
            match outcome {
                Ok(response) => settled is Ok && settled->Ok_0@ == response@,
                Err(error) => settled is Err && settled->Err_0@ == boundary_error(
                    JsErrorKind::GetInfoError,
                    error@,
                ),
            },
    {
        match outcome {
            Ok(response) => Ok(JsGetInfoResponse::from(response)),
            Err(error) => Err(into_err(JsErrorKind::GetInfoError, error)),
        }
    }
}

/// What a payment settles to: the provider's response in boundary form,
/// with the same preimage, or the provider's failure as a `PaymentError`.
pub open spec fn payment_settles_to(
    outcome: Result<SendPaymentResponse, Error>,
    settled: Result<JsSendPaymentResponse, JsError>,
) -> bool {
    match outcome {
        Ok(response) => settled is Ok && settled->Ok_0@ == response@,
        Err(error) => settled is Err && settled->Err_0@ == boundary_error(
            JsErrorKind::PaymentError,
            error@,
        ),
    }
}

/// Settles a payment, whichever call started it.
fn settle_payment(
    outcome: Result<SendPaymentResponse, Error>,
) -> (settled: Result<JsSendPaymentResponse, JsError>)
    ensures
        payment_settles_to(outcome, settled),
{
    match outcome {
        Ok(response) => Ok(JsSendPaymentResponse::from(response)),
        Err(error) => Err(into_err(JsErrorKind::PaymentError, error)),
    }
}

/// A keysend payment in flight.
#[must_use]
pub struct KeysendCall<'a, H> {
    handle: &'a H,
    args: &'a KeysendArgs,
}

impl<'a, H> View for KeysendCall<'a, H> {
    type V = CallView<H, KeysendArgsView>;

    closed spec fn view(&self) -> CallView<H, KeysendArgsView> {
        CallView { handle: *self.handle, args: self.args@ }
    }
}

impl<'a, H> KeysendCall<'a, H> {
    /// The call on `handle` that carries `args`.
    pub(crate) fn new(handle: &'a H, args: &'a KeysendArgs) -> (call: Self)
        ensures
            call@ == (CallView { handle: *handle, args: args@ }),
    {
        Self { handle, args }
    }

    /// The handle to ask.
    pub fn handle(&self) -> (handle: &'a H)
        ensures
            *handle == self@.handle,
    {
        self.handle
    }

    /// The arguments to hand to the provider, borrowed from the caller.
    pub fn args(&self) -> (args: &'a KeysendArgs)
        ensures
            args@ == self@.args,
    {
        self.args
    }

    /// What the caller gets for the provider's answer: the payment's proof
    /// in boundary form, and where the provider failed, its failure as a
    /// `PaymentError`.
    pub fn settle(
        self,
        outcome: Result<SendPaymentResponse, Error>,
    ) -> (settled: Result<JsSendPaymentResponse, JsError>)
        ensures
            payment_settles_to(outcome, settled),
    {
        settle_payment(outcome)
    }
}

/// The payment of an invoice in flight.
#[must_use]
pub struct SendPaymentCall<'a, H> {
    handle: &'a H,
    invoice: String,
}

impl<'a, H> View for SendPaymentCall<'a, H> {
    type V = CallView<H, Seq<char>>;

    closed spec fn view(&self) -> CallView<H, Seq<char>> {
        CallView { handle: *self.handle, args: self.invoice@ }
    }
}

impl<'a, H> SendPaymentCall<'a, H> {
    /// The call on `handle` that carries `invoice`.
    pub(crate) fn new(handle: &'a H, invoice: String) -> (call: Self)
        ensures
            call@ == (CallView { handle: *handle, args: invoice@ }),
    {
        Self { handle, invoice }
    }

    /// The handle to ask.
    pub fn handle(&self) -> (handle: &'a H)
        ensures
            *handle == self@.handle,
    {
        self.handle
    }

    /// The invoice to hand to the provider.
    pub fn invoice(&self) -> (invoice: &str)
        ensures
            invoice@ == self@.args,
    {
        self.invoice.as_str()
    }

    /// What the caller gets for the provider's answer: the payment's proof
    /// in boundary form, and where the provider failed, its failure as a
    /// `PaymentError`.
    pub fn settle(
        self,
        outcome: Result<SendPaymentResponse, Error>,
    ) -> (settled: Result<JsSendPaymentResponse, JsError>)
        ensures
            payment_settles_to(outcome, settled),
    {
        settle_payment(outcome)
    }
}

} // verus!
