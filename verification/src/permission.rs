use vstd::prelude::*;
use vstd::std_specs::cmp::PartialEqSpec;
use vstd::utf8::{encode_utf8, encode_utf8_decode_utf8};

verus! {

/// A capability, named by a namespace and a name within it.
///
/// Both fields are taken as they are: no format is imposed and nothing is
/// normalized, so `"Docs"` and `"docs"` are different namespaces.
pub struct Permission<'a> {
    pub namespace: &'a str,
    pub name: &'a str,
}

/// What a [`Permission`] stands for: the characters of its two fields.
pub struct PermissionView {
    pub namespace: Seq<char>,
    pub name: Seq<char>,
}

impl<'a> View for Permission<'a> {
    type V = PermissionView;

    open spec fn view(&self) -> PermissionView {
        PermissionView { namespace: self.namespace@, name: self.name@ }
    }
}

impl<'a> Permission<'a> {
    /// Builds the permission `name` in `namespace`. Any two strings are
    /// accepted, empty ones included.
    pub fn new(namespace: &'a str, name: &'a str) -> (permission: Self)
        ensures
            permission.namespace == namespace,
            permission.name == name,
    {
        Self { namespace, name }
    }
}

/// Tells whether two string slices hold the same characters.
fn same_text(left: &str, right: &str) -> (same: bool)
    ensures
        same == (left@ == right@),
{
    let left_bytes = left.as_bytes();
    let right_bytes = right.as_bytes();
    if left_bytes.len() != right_bytes.len() {
        return false;
    }
    let mut at: usize = 0;
    while at < left_bytes.len()
        invariant
            at <= left_bytes.len(),
            left_bytes.len() == right_bytes.len(),
            left_bytes@ == encode_utf8(left@),
            right_bytes@ == encode_utf8(right@),
            forall|k: int| 0 <= k < at ==> left_bytes@[k] == right_bytes@[k],
        decreases left_bytes.len() - at,
    {
        if left_bytes[at] != right_bytes[at] {
            return false;
        }
        at += 1;
    }
    proof {
        // Decoding undoes encoding, so two texts with the same bytes are the
        // same text.
        assert(left_bytes@ =~= right_bytes@);
        encode_utf8_decode_utf8(left@);
        encode_utf8_decode_utf8(right@);
    }
    true
}

impl<'a> PartialEq for Permission<'a> {
    /// Two permissions are equal when their namespaces hold the same
    /// characters and their names do.
    fn eq(&self, other: &Self) -> (equal: bool) {
        same_text(self.namespace, other.namespace) && same_text(self.name, other.name)
    }
}

impl<'a> vstd::std_specs::cmp::PartialEqSpecImpl for Permission<'a> {
    open spec fn obeys_eq_spec() -> bool {
        true
    }

    open spec fn eq_spec(&self, other: &Self) -> bool {
        self@ == other@
    }
}

/// Two permissions compare equal exactly when both their namespaces and their
/// names agree, character for character; one differing field makes them
/// unequal.
pub proof fn lemma_equal_iff_fields_agree(left: Permission, right: Permission)
    ensures
        left.eq_spec(&right) <==> {
            &&& left.namespace@ == right.namespace@
            &&& left.name@ == right.name@
        },
{
}

} // verus!
