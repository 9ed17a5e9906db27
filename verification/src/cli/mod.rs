//! Decisions shared by the `scorpio` and `antares` command lines.

use vstd::prelude::*;

use crate::util::overrides::{insert_entry, lookup, Entries, Overrides};
use crate::util::sources::opt_text;

pub mod exit;
pub mod report;
pub mod serve;

verus! {

pub open spec fn with_optional(e: Entries, key: Seq<char>, value: Option<String>) -> Entries {
    match value {
        Some(v) => insert_entry(e, key, v@),
        None => e,
    }
}

/// The command-line overrides the optional Antares path flags stand for.
pub open spec fn antares_override_entries(upper_root: Option<String>, cl_root: Option<String>, mount_root: Option<String>, state_file: Option<String>) -> Entries {
    with_optional(
        with_optional(
            with_optional(
                with_optional(Seq::empty(), "antares_upper_root"@, upper_root),
                "antares_cl_root"@,
                cl_root,
            ),
            "antares_mount_root"@,
            mount_root,
        ),
        "antares_state_file"@,
        state_file,
    )
}

fn insert_optional(o: &mut Overrides, key: &str, value: Option<String>)
    ensures
        final(o)@ == with_optional(old(o)@, key@, value),
{
    match value {
        Some(v) => o.insert(String::from_str(key), v),
        None => {},
    }
}

/// Builds the command-line override map from the optional Antares path
/// flags (each path given as its displayed text). Handing these to the
/// configuration as overrides keeps the precedence `CLI > env > file >
/// default` intact.
pub fn antares_overrides(upper_root: Option<String>, cl_root: Option<String>, mount_root: Option<String>, state_file: Option<String>) -> (r: Overrides)
    ensures
        r@ == antares_override_entries(upper_root, cl_root, mount_root, state_file),
{
    let mut o = Overrides::new();
    insert_optional(&mut o, "antares_upper_root", upper_root);
    insert_optional(&mut o, "antares_cl_root", cl_root);
    insert_optional(&mut o, "antares_mount_root", mount_root);
    insert_optional(&mut o, "antares_state_file", state_file);
    o
}

proof fn lemma_with_optional_lookup(e: Entries, k: Seq<char>, v: Option<String>, k2: Seq<char>)
    ensures
        k2 == k ==> (v is Some ==> lookup(with_optional(e, k, v), k2) == opt_text(v)),
        k2 == k && v is None ==> lookup(with_optional(e, k, v), k2) == lookup(e, k2),
        k2 != k ==> lookup(with_optional(e, k, v), k2) == lookup(e, k2),
{
    match v {
        Some(s) => {
            crate::util::overrides::lemma_lookup_after_insert(e, k, s@);
            if k2 != k {
                crate::util::overrides::lemma_lookup_other_after_insert(e, k, s@, k2);
            }
        },
        None => {},
    }
}

/// Each Antares path flag that is given is the override of its key, and a
/// flag that is not given sets nothing.
pub proof fn law_antares_overrides_hold_each_flag(upper_root: Option<String>, cl_root: Option<String>, mount_root: Option<String>, state_file: Option<String>)
    ensures
        ({
            let e = antares_override_entries(upper_root, cl_root, mount_root, state_file);
            &&& lookup(e, "antares_upper_root"@) == opt_text(upper_root)
            &&& lookup(e, "antares_cl_root"@) == opt_text(cl_root)
            &&& lookup(e, "antares_mount_root"@) == opt_text(mount_root)
            &&& lookup(e, "antares_state_file"@) == opt_text(state_file)
        }),
{
    reveal_strlit("antares_upper_root");
    reveal_strlit("antares_cl_root");
    reveal_strlit("antares_mount_root");
    reveal_strlit("antares_state_file");
    let k1 = "antares_upper_root"@;
    let k2 = "antares_cl_root"@;
    let k3 = "antares_mount_root"@;
    let k4 = "antares_state_file"@;
    assert(k1 != k2 && k1 != k3 && k1 != k4 && k2 != k3 && k2 != k4 && k3 != k4) by {
        assert(k1.len() != k2.len());
        assert(k1[8] != k3[8]);
        assert(k1[8] != k4[8]);
        assert(k2.len() != k3.len());
        assert(k2.len() != k4.len());
        assert(k3[8] != k4[8]);
    }
    let e0 = Seq::<(Seq<char>, Seq<char>)>::empty();
    let e1 = with_optional(e0, k1, upper_root);
    let e2 = with_optional(e1, k2, cl_root);
    let e3 = with_optional(e2, k3, mount_root);
    let e4 = with_optional(e3, k4, state_file);
    assert(lookup(e0, k1) is None && lookup(e0, k2) is None && lookup(e0, k3) is None && lookup(e0, k4) is None) by {
        reveal_with_fuel(crate::util::overrides::key_index, 1);
    }
    lemma_with_optional_lookup(e0, k1, upper_root, k1);
    lemma_with_optional_lookup(e0, k1, upper_root, k2);
    lemma_with_optional_lookup(e0, k1, upper_root, k3);
    lemma_with_optional_lookup(e0, k1, upper_root, k4);
    lemma_with_optional_lookup(e1, k2, cl_root, k1);
    lemma_with_optional_lookup(e1, k2, cl_root, k2);
    lemma_with_optional_lookup(e1, k2, cl_root, k3);
    lemma_with_optional_lookup(e1, k2, cl_root, k4);
    lemma_with_optional_lookup(e2, k3, mount_root, k1);
    lemma_with_optional_lookup(e2, k3, mount_root, k2);
    lemma_with_optional_lookup(e2, k3, mount_root, k3);
    lemma_with_optional_lookup(e2, k3, mount_root, k4);
    lemma_with_optional_lookup(e3, k4, state_file, k1);
    lemma_with_optional_lookup(e3, k4, state_file, k2);
    lemma_with_optional_lookup(e3, k4, state_file, k3);
    lemma_with_optional_lookup(e3, k4, state_file, k4);
}

/// The URL a mount request goes to: `{endpoint}/mounts`, with the
/// endpoint's trailing slashes dropped.
pub open spec fn mounts_url_of(endpoint: Seq<char>) -> Seq<char> {
    trim_trailing_slashes(endpoint) + "/mounts"@
}

pub open spec fn trim_trailing_slashes(s: Seq<char>) -> Seq<char>
    decreases s.len(),
{
    if s.len() > 0 && s.last() == '/' {
        trim_trailing_slashes(s.drop_last())
    } else {
        s
    }
}

/// Where `http-mount` posts its request for the daemon at `endpoint`.
pub fn mounts_url(endpoint: &str) -> (r: String)
    ensures
        r@ == mounts_url_of(endpoint@),
{
    let mut j = endpoint.unicode_len();
    assert(endpoint@.subrange(0, j as int) =~= endpoint@);
    while j > 0 && endpoint.get_char(j - 1) == '/'
        invariant
            j <= endpoint@.len(),
            trim_trailing_slashes(endpoint@) == trim_trailing_slashes(endpoint@.subrange(0, j as int)),
        decreases j,
    {
        assert(endpoint@.subrange(0, j as int).drop_last() =~= endpoint@.subrange(0, j - 1));
        j = j - 1;
    }
    crate::text::cat(String::from_str(endpoint.substring_char(0, j)), "/mounts")
}

} // verus!
