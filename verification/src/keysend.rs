//! The arguments of a keysend payment, and their boundary form.

use std::ops::Deref;
use vstd::prelude::*;

verus! {

/// What a keysend payment needs: where to pay, how much, and the records
/// that go with the payment. Nothing here is checked: whether the
/// destination is a public key and the amount can be paid is for the
/// provider to say.
#[derive(Debug, PartialEq, Eq)]
pub struct KeysendArgs {
    /// Public key of the destination node, as bytes.
    pub destination: Vec<u8>,
    /// Amount to pay.
    pub amount: u64,
    /// Key-value records that accompany the payment, if any.
    pub custom: Option<Vec<(String, String)>>,
}

/// Mathematical model of [`KeysendArgs`].
pub struct KeysendArgsView {
    pub destination: Seq<u8>,
    pub amount: nat,
    pub custom: Option<Seq<(Seq<char>, Seq<char>)>>,
}

impl View for KeysendArgs {
    type V = KeysendArgsView;

    open spec fn view(&self) -> KeysendArgsView {
        KeysendArgsView {
            destination: self.destination@,
            amount: self.amount as nat,
            custom: self.custom.deep_view(),
        }
    }
}

/// Boundary form of [`KeysendArgs`]: the caller builds it, the client only
/// reads it.
#[derive(Debug, PartialEq, Eq)]
pub struct JsKeysendArgs {
    inner: KeysendArgs,
}

impl View for JsKeysendArgs {
    type V = KeysendArgsView;

    closed spec fn view(&self) -> KeysendArgsView {
        self.inner@
    }
}

impl JsKeysendArgs {
    /// Arguments with the given destination, amount and records, none of
    /// them checked or changed.
    pub fn new(
        destination: Vec<u8>,
        amount: u64,
        custom: Option<Vec<(String, String)>>,
    ) -> (args: Self)
        ensures
            args@ == (KeysendArgsView {
                destination: destination@,
                amount: amount as nat,
                custom: custom.deep_view(),
            }),
    {
        Self { inner: KeysendArgs { destination, amount, custom } }
    }
}

impl Deref for JsKeysendArgs {
    type Target = KeysendArgs;

    /// The arguments in internal form, borrowed from the boundary form.
    fn deref(&self) -> (args: &KeysendArgs)
        ensures
            args@ == self@,
    {
        &self.inner
    }
}

} // verus!
