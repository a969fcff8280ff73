use vstd::prelude::*;
use arrayvec::ArrayVec;

verus! {

#[verifier::external_type_specification]
#[verifier::external_body]
#[verifier::reject_recursive_types(T)]
pub struct ExArrayVec<T, const CAP: usize>(ArrayVec<T, CAP>);

/// The components held in a path vector, in order.
pub uninterp spec fn path_components(v: ArrayVec<u32, 10>) -> Seq<u32>;

/// Relies on arrayvec's `ArrayVec::new`: the vector starts empty.
#[verifier::external_body]
pub(crate) fn new_path() -> (r: ArrayVec<u32, 10>)
    ensures
        path_components(r) == Seq::<u32>::empty(),
{
    ArrayVec::new()
}

/// Relies on arrayvec's `ArrayVec::try_push`: the element is appended when
/// fewer than ten are held, and the vector is left as it was otherwise.
#[verifier::external_body]
pub(crate) fn push_component(v: &mut ArrayVec<u32, 10>, c: u32) -> (r: bool)
    ensures
        r == (path_components(*old(v)).len() < 10),
        r ==> path_components(*final(v)) == path_components(*old(v)).push(c),
        !r ==> path_components(*final(v)) == path_components(*old(v)),
{
    v.try_push(c).is_ok()
}

/// Relies on arrayvec's `ArrayVec::as_slice`: the elements held, in order.
#[verifier::external_body]
pub(crate) fn path_slice(v: &ArrayVec<u32, 10>) -> (r: &[u32])
    ensures
        r@ == path_components(*v),
{
    v.as_slice()
}

/// The bytes held in a string argument.
pub uninterp spec fn string_arg_bytes(v: ArrayVec<u8, 128>) -> Seq<u8>;

/// The bytes held in a numeric argument.
pub uninterp spec fn number_arg_bytes(v: ArrayVec<u8, 20>) -> Seq<u8>;

/// Relies on arrayvec's `TryFrom<&[T]>` for `ArrayVec`: a copy of the slice
/// when it fits in 128 elements, an error otherwise.
#[verifier::external_body]
pub(crate) fn string_arg_from(s: &[u8]) -> (r: Option<ArrayVec<u8, 128>>)
    ensures
        r is Some <==> s@.len() <= 128,
        r matches Some(v) ==> string_arg_bytes(v) == s@,
{
    ArrayVec::try_from(s).ok()
}

/// Relies on arrayvec's `TryFrom<&[T]>` for `ArrayVec`: a copy of the slice
/// when it fits in 20 elements, an error otherwise.
#[verifier::external_body]
pub(crate) fn number_arg_from(s: &[u8]) -> (r: Option<ArrayVec<u8, 20>>)
    ensures
        r is Some <==> s@.len() <= 20,
        r matches Some(v) ==> number_arg_bytes(v) == s@,
{
    ArrayVec::try_from(s).ok()
}

/// Relies on arrayvec's `ArrayVec::as_slice`: the elements held, in order.
#[verifier::external_body]
pub(crate) fn string_arg_slice(v: &ArrayVec<u8, 128>) -> (r: &[u8])
    ensures
        r@ == string_arg_bytes(*v),
{
    v.as_slice()
}

/// Relies on arrayvec's `ArrayVec::as_slice`: the elements held, in order.
#[verifier::external_body]
pub(crate) fn number_arg_slice(v: &ArrayVec<u8, 20>) -> (r: &[u8])
    ensures
        r@ == number_arg_bytes(*v),
{
    v.as_slice()
}

/// The bytes held in a capability name.
pub uninterp spec fn cap_name_bytes(v: ArrayVec<u8, 14>) -> Seq<u8>;

/// The bytes held in a chain id or network id.
pub uninterp spec fn id_bytes(v: ArrayVec<u8, 32>) -> Seq<u8>;

/// The bytes held in a signer's public key.
pub uninterp spec fn public_key_bytes(v: ArrayVec<u8, 64>) -> Seq<u8>;

/// Relies on arrayvec's `TryFrom<&[T]>` for `ArrayVec`: a copy of the slice
/// when it fits in 14 elements, an error otherwise.
#[verifier::external_body]
pub(crate) fn cap_name_from(s: &[u8]) -> (r: Option<ArrayVec<u8, 14>>)
    ensures
        r is Some <==> s@.len() <= 14,
        r matches Some(v) ==> cap_name_bytes(v) == s@,
{
    ArrayVec::try_from(s).ok()
}

/// Relies on arrayvec's `TryFrom<&[T]>` for `ArrayVec`: a copy of the slice
/// when it fits in 32 elements, an error otherwise.
#[verifier::external_body]
pub(crate) fn id_from(s: &[u8]) -> (r: Option<ArrayVec<u8, 32>>)
    ensures
        r is Some <==> s@.len() <= 32,
        r matches Some(v) ==> id_bytes(v) == s@,
{
    ArrayVec::try_from(s).ok()
}

/// Relies on arrayvec's `TryFrom<&[T]>` for `ArrayVec`: a copy of the slice
/// when it fits in 64 elements, an error otherwise.
#[verifier::external_body]
pub(crate) fn public_key_from(s: &[u8]) -> (r: Option<ArrayVec<u8, 64>>)
    ensures
        r is Some <==> s@.len() <= 64,
        r matches Some(v) ==> public_key_bytes(v) == s@,
{
    ArrayVec::try_from(s).ok()
}

/// Relies on arrayvec's `ArrayVec::as_slice`: the elements held, in order.
#[verifier::external_body]
pub(crate) fn cap_name_slice(v: &ArrayVec<u8, 14>) -> (r: &[u8])
    ensures
        r@ == cap_name_bytes(*v),
{
    v.as_slice()
}

} // verus!
