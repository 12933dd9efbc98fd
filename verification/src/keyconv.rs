//! Converting user values into database-encoded keys and values.
use vstd::prelude::*;
use vstd::string::StringSliceAdditionalSpecFns;

verus! {

/// Convert the source into a database-encoded key.
pub trait AsKey {
    /// The bytes of the key.
    spec fn key_view(&self) -> Seq<u8>;

    fn as_key(&self) -> (r: &[u8])
        ensures
            r@ == self.key_view(),
    ;
}

/// Convert the source into a database-encoded value.
pub trait AsValue {
    /// The bytes of the value.
    spec fn value_view(&self) -> Seq<u8>;

    fn as_value(&self) -> (r: &[u8])
        ensures
            r@ == self.value_view(),
    ;
}

impl<'s> AsKey for &'s str {
    open spec fn key_view(&self) -> Seq<u8> {
        (*self).spec_bytes()
    }

    fn as_key(&self) -> (r: &[u8]) {
        (*self).as_bytes()
    }
}

impl AsKey for String {
    open spec fn key_view(&self) -> Seq<u8> {
        vstd::utf8::encode_utf8(self@)
    }

    fn as_key(&self) -> (r: &[u8]) {
        self.as_str().as_bytes()
    }
}

impl AsKey for Vec<u8> {
    open spec fn key_view(&self) -> Seq<u8> {
        self@
    }

    fn as_key(&self) -> (r: &[u8]) {
        self.as_slice()
    }
}

impl<'s> AsKey for &'s [u8] {
    open spec fn key_view(&self) -> Seq<u8> {
        (*self)@
    }

    fn as_key(&self) -> (r: &[u8]) {
        *self
    }
}

impl<'s, const N: usize> AsKey for &'s [u8; N] {
    open spec fn key_view(&self) -> Seq<u8> {
        (*self)@
    }

    fn as_key(&self) -> (r: &[u8]) {
        (*self).as_slice()
    }
}

impl<'s> AsKey for &'s Vec<u8> {
    open spec fn key_view(&self) -> Seq<u8> {
        (*self)@
    }

    fn as_key(&self) -> (r: &[u8]) {
        (*self).as_slice()
    }
}

impl<'s> AsValue for &'s str {
    open spec fn value_view(&self) -> Seq<u8> {
        (*self).spec_bytes()
    }

    fn as_value(&self) -> (r: &[u8]) {
        (*self).as_bytes()
    }
}

impl AsValue for String {
    open spec fn value_view(&self) -> Seq<u8> {
        vstd::utf8::encode_utf8(self@)
    }

    fn as_value(&self) -> (r: &[u8]) {
        self.as_str().as_bytes()
    }
}

impl AsValue for Vec<u8> {
    open spec fn value_view(&self) -> Seq<u8> {
        self@
    }

    fn as_value(&self) -> (r: &[u8]) {
        self.as_slice()
    }
}

impl<'s> AsValue for &'s [u8] {
    open spec fn value_view(&self) -> Seq<u8> {
        (*self)@
    }

    fn as_value(&self) -> (r: &[u8]) {
        *self
    }
}

impl<'s, const N: usize> AsValue for &'s [u8; N] {
    open spec fn value_view(&self) -> Seq<u8> {
        (*self)@
    }

    fn as_value(&self) -> (r: &[u8]) {
        (*self).as_slice()
    }
}

} // verus!
