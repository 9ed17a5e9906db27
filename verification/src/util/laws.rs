//! Properties of configuration resolution that span several functions.

use vstd::prelude::*;

use crate::text::{
    ascii_lowercase, contains_seq, decimal, is_blank, occurs_at, parse_unsigned, trim, ParseIntFailure,
};
use crate::util::config::{
    below_one_messages, env_key, first_blank, first_zero, flat_value, missing_messages,
    positive_fields, required_fields, resolve, scalar_text, section_value, spec_build,
    spec_problems, text_field, timeout_fields, timeout_fields_reported, ConfigView, ResolverView,
    already_initialized_message, fallback_outcome, init_outcome, visible, StoreView,
    flag_field, mode_field, number_field, DicfuseStatMode, installed_valid, build_fields,
    spec_defaults, base_dir, spec_validate, spec_check_file, spec_load, url_check, dump_text,
    dump_line, flag_name, mode_name,
};
use crate::util::overrides::{lookup, Entries};
use crate::text::debug_text;
use crate::util::sources::{toml_document, url_parse, TomlItem};

verus! {

/// A non-blank command-line override wins over every other source.
pub proof fn law_cli_beats_everything(r: ResolverView, flat: Seq<char>, section: Seq<char>, short: Seq<char>, v: Seq<char>)
    requires
        lookup(r.cli, flat) == Some(v),
        !is_blank(v),
    ensures
        resolve(r, flat, section, short) == Ok::<Option<Seq<char>>, Seq<char>>(Some(v)),
{
}

/// Without a command-line override, a non-blank `SCORPIO_<KEY>` environment
/// variable wins over the config file.
pub proof fn law_env_beats_file(r: ResolverView, flat: Seq<char>, section: Seq<char>, short: Seq<char>, v: Seq<char>)
    requires
        lookup(r.cli, flat) is None || is_blank(lookup(r.cli, flat)->0),
        lookup(r.env, env_key(flat)) == Some(v),
        !is_blank(v),
    ensures
        resolve(r, flat, section, short) == Ok::<Option<Seq<char>>, Seq<char>>(Some(v)),
{
}

/// When a key is set both in its section and as a flat key (and neither is
/// malformed), the section's value is used.
pub proof fn law_section_beats_flat(r: ResolverView, flat: Seq<char>, section: Seq<char>, short: Seq<char>, v: Seq<char>)
    requires
        lookup(r.cli, flat) is None || is_blank(lookup(r.cli, flat)->0),
        lookup(r.env, env_key(flat)) is None || is_blank(lookup(r.env, env_key(flat))->0),
        section_value(r.file, section, short) == Ok::<Option<Seq<char>>, Seq<char>>(Some(v)),
        flat_value(r.file, flat) is Ok,
    ensures
        resolve(r, flat, section, short) == Ok::<Option<Seq<char>>, Seq<char>>(Some(v)),
{
}

/// A blank flat value with no other source set falls back to the default.
pub proof fn law_blank_value_uses_default(r: ResolverView, flat: Seq<char>, s: Seq<char>, default: Seq<char>)
    requires
        lookup(r.cli, flat) is None,
        lookup(r.env, env_key(flat)) is None,
        r.file.contains_key(flat),
        r.file[flat] == TomlItem::Text(s),
        is_blank(s),
    ensures
        text_field(r, flat, Seq::empty(), Seq::empty(), default) == Ok::<Seq<char>, Seq<char>>(default),
{
    reveal(text_field);
}

/// A value present in the config file that is not a scalar is an error
/// naming the key, never silently replaced by the default.
pub proof fn law_non_scalar_is_rejected(r: ResolverView, flat: Seq<char>, default: Seq<char>)
    requires
        lookup(r.cli, flat) is None,
        lookup(r.env, env_key(flat)) is None,
        r.file.contains_key(flat),
        r.file[flat] is Array || r.file[flat] is Datetime || r.file[flat] is Table,
    ensures
        text_field(r, flat, Seq::empty(), Seq::empty(), default) is Err,
        text_field(r, flat, Seq::empty(), Seq::empty(), default)->Err_0 == scalar_text(r.file[flat], flat)->Err_0,
{
    reveal(text_field);
}

proof fn lemma_first_blank_none(items: Seq<(Seq<char>, Seq<char>)>)
    ensures
        first_blank(items) is None <==> forall|i: int| 0 <= i < items.len() ==> !is_blank(#[trigger] items[i].1),
    decreases items.len(),
{
    if items.len() > 0 {
        lemma_first_blank_none(items.drop_first());
        assert forall|i: int| 0 < i < items.len() implies items[i] == #[trigger] items.drop_first()[i - 1] by {}
        if first_blank(items) is None {
            assert forall|i: int| 0 <= i < items.len() implies !is_blank(#[trigger] items[i].1) by {
                if i > 0 {
                    assert(items[i] == items.drop_first()[i - 1]);
                }
            }
        }
    }
}

proof fn lemma_missing_messages_empty(items: Seq<(Seq<char>, Seq<char>)>)
    ensures
        missing_messages(items).len() == 0 <==> forall|i: int| 0 <= i < items.len() ==> !is_blank(#[trigger] items[i].1),
    decreases items.len(),
{
    if items.len() > 0 {
        lemma_missing_messages_empty(items.drop_last());
        assert forall|i: int| 0 <= i < items.len() - 1 implies items[i] == #[trigger] items.drop_last()[i] by {}
        if missing_messages(items).len() == 0 {
            assert forall|i: int| 0 <= i < items.len() implies !is_blank(#[trigger] items[i].1) by {
                if i < items.len() - 1 {
                    assert(items[i] == items.drop_last()[i]);
                }
            }
        }
    }
}

proof fn lemma_first_zero_none(items: Seq<(Seq<char>, nat)>)
    ensures
        first_zero(items) is None <==> forall|i: int| 0 <= i < items.len() ==> (#[trigger] items[i]).1 >= 1,
    decreases items.len(),
{
    if items.len() > 0 {
        lemma_first_zero_none(items.drop_first());
        assert forall|i: int| 0 < i < items.len() implies items[i] == #[trigger] items.drop_first()[i - 1] by {}
        if first_zero(items) is None {
            assert forall|i: int| 0 <= i < items.len() implies (#[trigger] items[i]).1 >= 1 by {
                if i > 0 {
                    assert(items[i] == items.drop_first()[i - 1]);
                }
            }
        }
    }
}

proof fn lemma_below_one_messages_empty(items: Seq<(Seq<char>, nat)>)
    ensures
        below_one_messages(items).len() == 0 <==> forall|i: int| 0 <= i < items.len() ==> (#[trigger] items[i]).1 >= 1,
    decreases items.len(),
{
    if items.len() > 0 {
        lemma_below_one_messages_empty(items.drop_last());
        assert forall|i: int| 0 <= i < items.len() - 1 implies items[i] == #[trigger] items.drop_last()[i] by {}
        if below_one_messages(items).len() == 0 {
            assert forall|i: int| 0 <= i < items.len() implies (#[trigger] items[i]).1 >= 1 by {
                if i < items.len() - 1 {
                    assert(items[i] == items.drop_last()[i]);
                }
            }
        }
    }
}

} // verus!

verus! {

proof fn lemma_checks_agree(c: ConfigView)
    ensures
        first_blank(required_fields(c)) is None <==> missing_messages(required_fields(c)).len() == 0,
        first_zero(positive_fields(c)) is None <==> below_one_messages(positive_fields(c)).len() == 0,
        first_zero(timeout_fields(c)) is None <==> below_one_messages(timeout_fields_reported(c)).len() == 0,
{
    lemma_first_blank_none(required_fields(c));
    lemma_missing_messages_empty(required_fields(c));
    lemma_first_zero_none(positive_fields(c));
    lemma_below_one_messages_empty(positive_fields(c));
    lemma_first_zero_none(timeout_fields(c));
    lemma_below_one_messages_empty(timeout_fields_reported(c));
    let t = timeout_fields(c);
    let u = timeout_fields_reported(c);
    assert(t[0] == u[1] && t[1] == u[0]);
    if forall|i: int| 0 <= i < t.len() ==> (#[trigger] t[i]).1 >= 1 {
        assert forall|i: int| 0 <= i < u.len() implies (#[trigger] u[i]).1 >= 1 by {
            if i == 0 {
                assert(t[1].1 >= 1);
            } else {
                assert(t[0].1 >= 1);
            }
        }
    }
    if forall|i: int| 0 <= i < u.len() ==> (#[trigger] u[i]).1 >= 1 {
        assert forall|i: int| 0 <= i < t.len() implies (#[trigger] t[i]).1 >= 1 by {
            if i == 0 {
                assert(u[1].1 >= 1);
            } else {
                assert(u[0].1 >= 1);
            }
        }
    }
}

/// `config validate` finds no problem in exactly the configurations that
/// start-up accepts: a file it passes is one `init_config` loads, and a file
/// `init_config` loads draws no complaint from it.
#[verifier::spinoff_prover]
#[verifier::rlimit(100)]
pub proof fn law_validate_agrees_with_startup(r: ResolverView, d: ConfigView)
    ensures
        spec_build(r, d) is Ok <==> spec_problems(r, d).len() == 0,
{
    reveal(spec_problems);
    assert forall|c: ConfigView|
        #![trigger required_fields(c)]
        (first_blank(required_fields(c)) is None <==> missing_messages(required_fields(c)).len() == 0)
            && (first_zero(positive_fields(c)) is None <==> below_one_messages(positive_fields(c)).len() == 0)
            && (first_zero(timeout_fields(c)) is None <==> below_one_messages(timeout_fields_reported(c)).len() == 0) by {
        lemma_checks_agree(c);
    }
}

} // verus!

verus! {

/// Once `init_config` has succeeded, initializing again is refused with
/// "Configuration already initialized" and changes nothing.
pub proof fn law_init_only_once(s: StoreView, first: Result<ConfigView, Seq<char>>, second: Result<ConfigView, Seq<char>>)
    requires
        init_outcome(s, first).1 is Ok,
    ensures
        init_outcome(init_outcome(s, first).0, second) == (init_outcome(s, first).0, Err::<(), Seq<char>>(already_initialized_message())),
{
}

/// Reading the configuration before `init_config` sees the built-in defaults.
pub proof fn law_read_before_init_sees_defaults(d: ConfigView)
    ensures
        visible(fallback_outcome(StoreView { explicit: None, fallback: None }, d)) == Some(d),
{
}

/// The defaults built on the first early read are the ones every later
/// early read sees.
pub proof fn law_fallback_built_once(s: StoreView, d1: ConfigView, d2: ConfigView)
    ensures
        fallback_outcome(fallback_outcome(s, d1), d2) == fallback_outcome(s, d1),
{
}

/// An early read does not block `init_config`: after a successful
/// initialization, reads see the explicit values, while the defaults handed
/// out before stay kept.
pub proof fn law_init_after_early_read(d: ConfigView, loaded: Result<ConfigView, Seq<char>>)
    requires
        loaded is Ok,
    ensures
        ({
            let early = fallback_outcome(StoreView { explicit: None, fallback: None }, d);
            let (after, r) = init_outcome(early, loaded);
            &&& r is Ok
            &&& visible(after) == Some(loaded->Ok_0)
            &&& after.fallback == Some(d)
        }),
{
}

/// A failed `init_config` leaves the configuration reads see unchanged.
pub proof fn law_failed_init_changes_nothing(s: StoreView, e: Seq<char>)
    ensures
        init_outcome(s, Err(e)).0 == s,
        init_outcome(s, Err(e)).1 is Err,
{
}

} // verus!

verus! {

proof fn lemma_prefix_of_concat(a: Seq<char>, b: Seq<char>)
    ensures
        crate::text::is_prefix(a, a + b),
{
    assert((a + b).subrange(0, a.len() as int) =~= a);
}

/// A value that is found but does not parse as its type is reported with the
/// offending field's name, never replaced by the default.
pub proof fn law_type_errors_name_the_field(r: ResolverView, flat: Seq<char>, section: Seq<char>, short: Seq<char>, max: nat, kind_name: Seq<char>, n: nat, b: bool, m: DicfuseStatMode)
    requires
        resolve(r, flat, section, short) is Ok,
    ensures
        number_field(r, flat, section, short, n, max, kind_name) matches Err(e) ==> crate::text::is_prefix("Invalid value for '"@ + flat + "': "@, e),
        flag_field(r, flat, section, short, b) matches Err(e) ==> crate::text::is_prefix("Invalid boolean for '"@ + flat, e),
        mode_field(r, flat, section, short, m) matches Err(e) ==> crate::text::is_prefix("Invalid stat mode for '"@ + flat, e),
{
    reveal(number_field);
    reveal(flag_field);
    reveal(mode_field);
    if let Ok(Some(v)) = resolve(r, flat, section, short) {
        if let Err(f) = crate::text::parse_unsigned(crate::text::trim(v), max) {
            let p = "Invalid value for '"@ + flat + "': "@;
            let e = crate::util::config::number_message(flat, v, kind_name, f);
            assert(e =~= p + (crate::text::debug_text(v) + " is not a valid "@ + kind_name + " ("@ + crate::util::config::int_error_text(f) + ")"@));
            lemma_prefix_of_concat(p, crate::text::debug_text(v) + " is not a valid "@ + kind_name + " ("@ + crate::util::config::int_error_text(f) + ")"@);
        }
        let o = crate::text::ascii_lowercase(crate::text::trim(v));
        let pb = "Invalid boolean for '"@ + flat;
        let rb = "': expected 'true' or 'false', got "@ + crate::text::debug_text(o);
        assert(crate::util::config::flag_message(flat, o) =~= pb + rb);
        lemma_prefix_of_concat(pb, rb);
        let pm = "Invalid stat mode for '"@ + flat;
        let rm = "': expected 'fast' or 'accurate', got "@ + crate::text::debug_text(o);
        assert(crate::util::config::mode_message(flat, o) =~= pm + rm);
        lemma_prefix_of_concat(pm, rm);
    }
}

/// A URL parsed with an `http` or `https` scheme and a non-empty host.
pub open spec fn is_http_url(parsed: Result<(Seq<char>, Option<Seq<char>>), Seq<char>>) -> bool {
    match parsed {
        Ok((scheme, Some(host))) => (scheme == "http"@ || scheme == "https"@) && host.len() > 0,
        _ => false,
    }
}

/// A configuration installed by `init_config` has a `base_url` and an
/// `lfs_url` that parse as `http` or `https` URLs with a non-empty host.
pub proof fn law_installed_urls_are_http(s: StoreView)
    requires
        installed_valid(s),
        s.explicit is Some,
    ensures
        is_http_url(url_parse(s.explicit->0.base_url)),
        is_http_url(url_parse(s.explicit->0.lfs_url)),
{
}

/// Two sets of defaults that differ at most in where the runtime paths lie,
/// every such path being non-blank in both.
pub open spec fn differ_in_paths_only(d1: ConfigView, d2: ConfigView) -> bool {
    &&& d1 == ConfigView {
        workspace: d1.workspace,
        store_path: d1.store_path,
        antares_upper_root: d1.antares_upper_root,
        antares_cl_root: d1.antares_cl_root,
        antares_mount_root: d1.antares_mount_root,
        antares_state_file: d1.antares_state_file,
        ..d2
    }
    &&& !is_blank(d1.workspace) && !is_blank(d2.workspace)
    &&& !is_blank(d1.store_path) && !is_blank(d2.store_path)
    &&& !is_blank(d1.antares_upper_root) && !is_blank(d2.antares_upper_root)
    &&& !is_blank(d1.antares_cl_root) && !is_blank(d2.antares_cl_root)
    &&& !is_blank(d1.antares_mount_root) && !is_blank(d2.antares_mount_root)
    &&& !is_blank(d1.antares_state_file) && !is_blank(d2.antares_state_file)
}

proof fn lemma_path_not_blank(u: Seq<char>, tail: Seq<char>)
    ensures
        !is_blank(base_dir(u) + tail),
{
    reveal_strlit("/tmp/megadir-");
    assert((base_dir(u) + tail)[0] == '/');
}

/// The defaults of any two users differ only in their (non-blank) paths.
proof fn lemma_defaults_differ_in_paths(u1: Seq<char>, u2: Seq<char>)
    ensures
        differ_in_paths_only(spec_defaults(u1), spec_defaults(u2)),
{
    lemma_path_not_blank(u1, "/mount"@);
    lemma_path_not_blank(u2, "/mount"@);
    lemma_path_not_blank(u1, "/store"@);
    lemma_path_not_blank(u2, "/store"@);
    lemma_path_not_blank(u1, "/antares/upper"@);
    lemma_path_not_blank(u2, "/antares/upper"@);
    lemma_path_not_blank(u1, "/antares/cl"@);
    lemma_path_not_blank(u2, "/antares/cl"@);
    lemma_path_not_blank(u1, "/antares/mnt"@);
    lemma_path_not_blank(u2, "/antares/mnt"@);
    lemma_path_not_blank(u1, "/antares/state.toml"@);
    lemma_path_not_blank(u2, "/antares/state.toml"@);
}

/// A text setting resolves to the same error or blankness over two
/// non-blank defaults.
proof fn lemma_text_field_paths(r: ResolverView, flat: Seq<char>, section: Seq<char>, short: Seq<char>, a: Seq<char>, b: Seq<char>)
    requires
        !is_blank(a),
        !is_blank(b),
    ensures
        text_field(r, flat, section, short, a) is Err <==> text_field(r, flat, section, short, b) is Err,
        text_field(r, flat, section, short, a) is Err ==> text_field(r, flat, section, short, a) == text_field(r, flat, section, short, b),
        text_field(r, flat, section, short, a) matches Ok(x) ==> (text_field(r, flat, section, short, b) matches Ok(y)
            && (is_blank(x) <==> is_blank(y))),
{
    reveal(text_field);
}

/// Whether start-up accepts a configuration does not depend on where the
/// defaults place the runtime paths.
#[verifier::rlimit(100)]
#[verifier::spinoff_prover]
proof fn lemma_build_ok_over_paths(r: ResolverView, d1: ConfigView, d2: ConfigView)
    requires
        differ_in_paths_only(d1, d2),
    ensures
        spec_build(r, d1) is Ok <==> spec_build(r, d2) is Ok,
{
    lemma_text_field_paths(r, "workspace"@, "server"@, "workspace"@, d1.workspace, d2.workspace);
    lemma_text_field_paths(r, "store_path"@, "server"@, "store_path"@, d1.store_path, d2.store_path);
    lemma_text_field_paths(r, "antares_upper_root"@, "antares"@, "upper_root"@, d1.antares_upper_root, d2.antares_upper_root);
    lemma_text_field_paths(r, "antares_cl_root"@, "antares"@, "cl_root"@, d1.antares_cl_root, d2.antares_cl_root);
    lemma_text_field_paths(r, "antares_mount_root"@, "antares"@, "mount_root"@, d1.antares_mount_root, d2.antares_mount_root);
    lemma_text_field_paths(r, "antares_state_file"@, "antares"@, "state_file"@, d1.antares_state_file, d2.antares_state_file);
    assert(build_fields(r, d1) is Err <==> build_fields(r, d2) is Err);
    if build_fields(r, d1) is Ok {
        let c1 = build_fields(r, d1)->Ok_0;
        let c2 = build_fields(r, d2)->Ok_0;
        lemma_first_blank_none(required_fields(c1));
        lemma_first_blank_none(required_fields(c2));
        assert(positive_fields(c1) == positive_fields(c2));
        assert(timeout_fields(c1) == timeout_fields(c2));
        let a1 = required_fields(c1);
        let a2 = required_fields(c2);
        assert forall|i: int| 0 <= i < a1.len() implies (is_blank(#[trigger] a1[i].1) <==> is_blank(a2[i].1)) by {}
        if first_blank(a1) is None {
            assert forall|i: int| 0 <= i < a2.len() implies !is_blank(#[trigger] a2[i].1) by {
                assert(!is_blank(a1[i].1));
            }
        }
        if first_blank(a2) is None {
            assert forall|i: int| 0 <= i < a1.len() implies !is_blank(#[trigger] a1[i].1) by {
                assert(!is_blank(a2[i].1));
            }
        }
        assert((first_blank(a1) is None) <==> (first_blank(a2) is None));
        assert((spec_validate(c1) is Ok) <==> (spec_validate(c2) is Ok));
    }
}

/// `config validate` passes a configuration exactly when start-up loads it,
/// whichever users the two calls build their defaults for: the user only
/// moves the default runtime paths, which are never blank.
pub proof fn law_validate_agrees_whatever_user(r: ResolverView, u1: Seq<char>, u2: Seq<char>)
    ensures
        spec_problems(r, spec_defaults(u1)).len() == 0 <==> spec_build(r, spec_defaults(u2)) is Ok,
{
    law_validate_agrees_with_startup(r, spec_defaults(u1));
    lemma_defaults_differ_in_paths(u1, u2);
    lemma_build_ok_over_paths(r, spec_defaults(u1), spec_defaults(u2));
}

/// The same for a config file's text: `config validate` finds no problem in
/// it exactly when start-up loads it, whichever users the two calls build
/// their defaults for.
pub proof fn law_validate_file_agrees_whatever_user(
    path: Seq<char>,
    text: Seq<char>,
    cli: Entries,
    env: Entries,
    u1: Seq<char>,
    u2: Seq<char>,
)
    ensures
        spec_check_file(path, text, cli, env, spec_defaults(u1)).len() == 0 <==> spec_load(path, text, cli, env, spec_defaults(u2)) is Ok,
{
    match toml_document(text) {
        Err(_) => {},
        Ok(file) => {
            law_validate_agrees_whatever_user(ResolverView { file, cli, env }, u1, u2);
        },
    }
}

/// A URL setting is accepted exactly when it parses as an `http` or `https`
/// URL with a non-empty host.
pub proof fn law_url_accepted_iff_http(field: Seq<char>, value: Seq<char>)
    ensures
        url_check(field, value) is Ok <==> is_http_url(url_parse(value)),
{
}

/// The non-blank text a config file holds under `[section] short`, if any.
pub open spec fn section_text(file: Map<Seq<char>, TomlItem>, section: Seq<char>, short: Seq<char>) -> Option<Seq<char>> {
    if file.contains_key(section) {
        match file[section] {
            TomlItem::Table(t) => if t.contains_key(short) {
                match t[short] {
                    TomlItem::Text(v) => if is_blank(v) {
                        None
                    } else {
                        Some(v)
                    },
                    _ => None,
                }
            } else {
                None
            },
            _ => None,
        }
    } else {
        None
    }
}

/// With no override, a key's non-blank text in its section is what the key
/// resolves to, unless the file is malformed for that key.
proof fn lemma_section_resolves(r: ResolverView, flat: Seq<char>, section: Seq<char>, short: Seq<char>)
    requires
        r.cli.len() == 0,
        r.env.len() == 0,
        section.len() > 0,
    ensures
        section_text(r.file, section, short) matches Some(v) ==> (resolve(r, flat, section, short) is Err
            || resolve(r, flat, section, short) == Ok::<Option<Seq<char>>, Seq<char>>(Some(v))),
{
}

/// With no command-line or environment override, the non-blank text a
/// config file holds for a text setting under its section — `[server]`
/// `base_url`, `lfs_url`, `workspace`, `store_path`, `git_author`,
/// `git_email`, `config_file`, `log_level`, and `[antares]` `upper_root`,
/// `cl_root`, `mount_root`, `state_file` — is the value start-up builds.
#[verifier::rlimit(100)]
#[verifier::spinoff_prover]
pub proof fn law_section_texts_are_used(r: ResolverView, d: ConfigView)
    requires
        r.cli.len() == 0,
        r.env.len() == 0,
    ensures
        spec_build(r, d) matches Ok(c) ==> {
            &&& section_text(r.file, "server"@, "base_url"@) matches Some(v) ==> c.base_url == v
            &&& section_text(r.file, "server"@, "lfs_url"@) matches Some(v) ==> c.lfs_url == v
            &&& section_text(r.file, "server"@, "workspace"@) matches Some(v) ==> c.workspace == v
            &&& section_text(r.file, "server"@, "store_path"@) matches Some(v) ==> c.store_path == v
            &&& section_text(r.file, "server"@, "git_author"@) matches Some(v) ==> c.git_author == v
            &&& section_text(r.file, "server"@, "git_email"@) matches Some(v) ==> c.git_email == v
            &&& section_text(r.file, "server"@, "config_file"@) matches Some(v) ==> c.config_file == v
            &&& section_text(r.file, "server"@, "log_level"@) matches Some(v) ==> c.log_level == v
            &&& section_text(r.file, "antares"@, "upper_root"@) matches Some(v) ==> c.antares_upper_root == v
            &&& section_text(r.file, "antares"@, "cl_root"@) matches Some(v) ==> c.antares_cl_root == v
            &&& section_text(r.file, "antares"@, "mount_root"@) matches Some(v) ==> c.antares_mount_root == v
            &&& section_text(r.file, "antares"@, "state_file"@) matches Some(v) ==> c.antares_state_file == v
        },
{
    reveal(text_field);
    reveal_strlit("server");
    reveal_strlit("antares");
    lemma_section_resolves(r, "base_url"@, "server"@, "base_url"@);
    lemma_section_resolves(r, "lfs_url"@, "server"@, "lfs_url"@);
    lemma_section_resolves(r, "workspace"@, "server"@, "workspace"@);
    lemma_section_resolves(r, "store_path"@, "server"@, "store_path"@);
    lemma_section_resolves(r, "git_author"@, "server"@, "git_author"@);
    lemma_section_resolves(r, "git_email"@, "server"@, "git_email"@);
    lemma_section_resolves(r, "config_file"@, "server"@, "config_file"@);
    lemma_section_resolves(r, "log_level"@, "server"@, "log_level"@);
    lemma_section_resolves(r, "antares_upper_root"@, "antares"@, "upper_root"@);
    lemma_section_resolves(r, "antares_cl_root"@, "antares"@, "cl_root"@);
    lemma_section_resolves(r, "antares_mount_root"@, "antares"@, "mount_root"@);
    lemma_section_resolves(r, "antares_state_file"@, "antares"@, "state_file"@);
}

/// With no command-line or environment override, the decimal text a config
/// file holds for a numeric setting under its section (`[dicfuse]` or
/// `[antares]`, under the setting's short name) is the number start-up
/// builds for it.
#[verifier::rlimit(100)]
#[verifier::spinoff_prover]
pub proof fn law_section_numbers_are_used(r: ResolverView, d: ConfigView)
    requires
        r.cli.len() == 0,
        r.env.len() == 0,
    ensures
        spec_build(r, d) matches Ok(c) ==> {
            &&& section_text(r.file, "dicfuse"@, "load_dir_depth"@) matches Some(v) ==> parse_unsigned(trim(v), usize::MAX as nat) == Ok::<nat, ParseIntFailure>(c.load_dir_depth)
            &&& section_text(r.file, "dicfuse"@, "fetch_file_thread"@) matches Some(v) ==> parse_unsigned(trim(v), usize::MAX as nat) == Ok::<nat, ParseIntFailure>(c.fetch_file_thread)
            &&& section_text(r.file, "dicfuse"@, "import_concurrency"@) matches Some(v) ==> parse_unsigned(trim(v), usize::MAX as nat) == Ok::<nat, ParseIntFailure>(c.dicfuse_import_concurrency)
            &&& section_text(r.file, "dicfuse"@, "dir_sync_ttl_secs"@) matches Some(v) ==> parse_unsigned(trim(v), u64::MAX as nat) == Ok::<nat, ParseIntFailure>(c.dicfuse_dir_sync_ttl_secs)
            &&& section_text(r.file, "dicfuse"@, "reply_ttl_secs"@) matches Some(v) ==> parse_unsigned(trim(v), u64::MAX as nat) == Ok::<nat, ParseIntFailure>(c.dicfuse_reply_ttl_secs)
            &&& section_text(r.file, "dicfuse"@, "fetch_dir_timeout_secs"@) matches Some(v) ==> parse_unsigned(trim(v), u64::MAX as nat) == Ok::<nat, ParseIntFailure>(c.dicfuse_fetch_dir_timeout_secs)
            &&& section_text(r.file, "dicfuse"@, "connect_timeout_secs"@) matches Some(v) ==> parse_unsigned(trim(v), u64::MAX as nat) == Ok::<nat, ParseIntFailure>(c.dicfuse_connect_timeout_secs)
            &&& section_text(r.file, "dicfuse"@, "fetch_dir_max_retries"@) matches Some(v) ==> parse_unsigned(trim(v), u32::MAX as nat) == Ok::<nat, ParseIntFailure>(c.dicfuse_fetch_dir_max_retries)
            &&& section_text(r.file, "dicfuse"@, "open_buff_max_bytes"@) matches Some(v) ==> parse_unsigned(trim(v), u64::MAX as nat) == Ok::<nat, ParseIntFailure>(c.dicfuse_open_buff_max_bytes)
            &&& section_text(r.file, "dicfuse"@, "open_buff_max_files"@) matches Some(v) ==> parse_unsigned(trim(v), usize::MAX as nat) == Ok::<nat, ParseIntFailure>(c.dicfuse_open_buff_max_files)
            &&& section_text(r.file, "antares"@, "load_dir_depth"@) matches Some(v) ==> parse_unsigned(trim(v), usize::MAX as nat) == Ok::<nat, ParseIntFailure>(c.antares_load_dir_depth)
            &&& section_text(r.file, "antares"@, "dir_sync_ttl_secs"@) matches Some(v) ==> parse_unsigned(trim(v), u64::MAX as nat) == Ok::<nat, ParseIntFailure>(c.antares_dicfuse_dir_sync_ttl_secs)
            &&& section_text(r.file, "antares"@, "reply_ttl_secs"@) matches Some(v) ==> parse_unsigned(trim(v), u64::MAX as nat) == Ok::<nat, ParseIntFailure>(c.antares_dicfuse_reply_ttl_secs)
            &&& section_text(r.file, "antares"@, "open_buff_max_bytes"@) matches Some(v) ==> parse_unsigned(trim(v), u64::MAX as nat) == Ok::<nat, ParseIntFailure>(c.antares_dicfuse_open_buff_max_bytes)
            &&& section_text(r.file, "antares"@, "open_buff_max_files"@) matches Some(v) ==> parse_unsigned(trim(v), usize::MAX as nat) == Ok::<nat, ParseIntFailure>(c.antares_dicfuse_open_buff_max_files)
        },
{
    reveal(number_field);
    reveal_strlit("dicfuse");
    reveal_strlit("antares");
    lemma_section_resolves(r, "load_dir_depth"@, "dicfuse"@, "load_dir_depth"@);
    lemma_section_resolves(r, "fetch_file_thread"@, "dicfuse"@, "fetch_file_thread"@);
    lemma_section_resolves(r, "dicfuse_import_concurrency"@, "dicfuse"@, "import_concurrency"@);
    lemma_section_resolves(r, "dicfuse_dir_sync_ttl_secs"@, "dicfuse"@, "dir_sync_ttl_secs"@);
    lemma_section_resolves(r, "dicfuse_reply_ttl_secs"@, "dicfuse"@, "reply_ttl_secs"@);
    lemma_section_resolves(r, "dicfuse_fetch_dir_timeout_secs"@, "dicfuse"@, "fetch_dir_timeout_secs"@);
    lemma_section_resolves(r, "dicfuse_connect_timeout_secs"@, "dicfuse"@, "connect_timeout_secs"@);
    lemma_section_resolves(r, "dicfuse_fetch_dir_max_retries"@, "dicfuse"@, "fetch_dir_max_retries"@);
    lemma_section_resolves(r, "dicfuse_open_buff_max_bytes"@, "dicfuse"@, "open_buff_max_bytes"@);
    lemma_section_resolves(r, "dicfuse_open_buff_max_files"@, "dicfuse"@, "open_buff_max_files"@);
    lemma_section_resolves(r, "antares_load_dir_depth"@, "antares"@, "load_dir_depth"@);
    lemma_section_resolves(r, "antares_dicfuse_dir_sync_ttl_secs"@, "antares"@, "dir_sync_ttl_secs"@);
    lemma_section_resolves(r, "antares_dicfuse_reply_ttl_secs"@, "antares"@, "reply_ttl_secs"@);
    lemma_section_resolves(r, "antares_dicfuse_open_buff_max_bytes"@, "antares"@, "open_buff_max_bytes"@);
    lemma_section_resolves(r, "antares_dicfuse_open_buff_max_files"@, "antares"@, "open_buff_max_files"@);
}

/// With no command-line or environment override, the text a config file
/// holds under `[dicfuse] readable`, `[dicfuse] stat_mode` and `[antares]
/// stat_mode` decides the flag and the stat modes start-up builds.
#[verifier::rlimit(100)]
#[verifier::spinoff_prover]
pub proof fn law_section_flags_and_modes_are_used(r: ResolverView, d: ConfigView)
    requires
        r.cli.len() == 0,
        r.env.len() == 0,
    ensures
        spec_build(r, d) matches Ok(c) ==> {
            &&& section_text(r.file, "dicfuse"@, "readable"@) matches Some(v) ==> (c.dicfuse_readable <==> ascii_lowercase(trim(v)) == "true"@)
            &&& section_text(r.file, "dicfuse"@, "stat_mode"@) matches Some(v) ==> (c.dicfuse_stat_mode == DicfuseStatMode::Fast <==> ascii_lowercase(trim(v)) == "fast"@)
            &&& section_text(r.file, "antares"@, "stat_mode"@) matches Some(v) ==> (c.antares_dicfuse_stat_mode == DicfuseStatMode::Fast <==> ascii_lowercase(trim(v)) == "fast"@)
        },
{
    reveal(flag_field);
    reveal(mode_field);
    reveal_strlit("dicfuse");
    reveal_strlit("antares");
    lemma_section_resolves(r, "dicfuse_readable"@, "dicfuse"@, "readable"@);
    lemma_section_resolves(r, "dicfuse_stat_mode"@, "dicfuse"@, "stat_mode"@);
    lemma_section_resolves(r, "antares_dicfuse_stat_mode"@, "antares"@, "stat_mode"@);
}

proof fn lemma_contains_in_front(a: Seq<char>, b: Seq<char>, pat: Seq<char>)
    requires
        contains_seq(a, pat),
    ensures
        contains_seq(a + b, pat),
{
    let i = choose|i: int| occurs_at(a, pat, i);
    assert((a + b).subrange(i, i + pat.len()) =~= a.subrange(i, i + pat.len()));
    assert(occurs_at(a + b, pat, i));
}

proof fn lemma_contains_at_end(a: Seq<char>, pat: Seq<char>)
    ensures
        contains_seq(a + pat, pat),
{
    assert((a + pat).subrange(a.len() as int, (a.len() + pat.len()) as int) =~= pat);
    assert(occurs_at(a + pat, pat, a.len() as int));
}

broadcast proof fn lemma_contains_grows(a: Seq<char>, b: Seq<char>, pat: Seq<char>)
    ensures
        #[trigger] contains_seq(a + b, pat) <== contains_seq(a, pat) || b == pat,
{
    if contains_seq(a, pat) {
        lemma_contains_in_front(a, b, pat);
    } else if b == pat {
        lemma_contains_at_end(a, pat);
    }
}

/// `config show` prints every setting on a line of its own, named after the
/// setting and showing that setting's own value: texts as `Debug` quotes
/// them, numbers in decimal, flags and stat modes by name.
#[verifier::rlimit(100)]
#[verifier::spinoff_prover]
pub proof fn law_dump_shows_each_setting(c: ConfigView)
    ensures
        contains_seq(dump_text(c), dump_line("base_url"@, debug_text(c.base_url))),
        contains_seq(dump_text(c), dump_line("workspace"@, debug_text(c.workspace))),
        contains_seq(dump_text(c), dump_line("store_path"@, debug_text(c.store_path))),
        contains_seq(dump_text(c), dump_line("git_author"@, debug_text(c.git_author))),
        contains_seq(dump_text(c), dump_line("git_email"@, debug_text(c.git_email))),
        contains_seq(dump_text(c), dump_line("config_file"@, debug_text(c.config_file))),
        contains_seq(dump_text(c), dump_line("lfs_url"@, debug_text(c.lfs_url))),
        contains_seq(dump_text(c), dump_line("log_level"@, debug_text(c.log_level))),
        contains_seq(dump_text(c), dump_line("dicfuse_readable"@, flag_name(c.dicfuse_readable))),
        contains_seq(dump_text(c), dump_line("load_dir_depth"@, decimal(c.load_dir_depth))),
        contains_seq(dump_text(c), dump_line("fetch_file_thread"@, decimal(c.fetch_file_thread))),
        contains_seq(dump_text(c), dump_line("dicfuse_import_concurrency"@, decimal(c.dicfuse_import_concurrency))),
        contains_seq(dump_text(c), dump_line("dicfuse_dir_sync_ttl_secs"@, decimal(c.dicfuse_dir_sync_ttl_secs))),
        contains_seq(dump_text(c), dump_line("dicfuse_reply_ttl_secs"@, decimal(c.dicfuse_reply_ttl_secs))),
        contains_seq(dump_text(c), dump_line("dicfuse_fetch_dir_timeout_secs"@, decimal(c.dicfuse_fetch_dir_timeout_secs))),
        contains_seq(dump_text(c), dump_line("dicfuse_connect_timeout_secs"@, decimal(c.dicfuse_connect_timeout_secs))),
        contains_seq(dump_text(c), dump_line("dicfuse_fetch_dir_max_retries"@, decimal(c.dicfuse_fetch_dir_max_retries))),
        contains_seq(dump_text(c), dump_line("dicfuse_stat_mode"@, mode_name(c.dicfuse_stat_mode))),
        contains_seq(dump_text(c), dump_line("dicfuse_open_buff_max_bytes"@, decimal(c.dicfuse_open_buff_max_bytes))),
        contains_seq(dump_text(c), dump_line("dicfuse_open_buff_max_files"@, decimal(c.dicfuse_open_buff_max_files))),
        contains_seq(dump_text(c), dump_line("antares_load_dir_depth"@, decimal(c.antares_load_dir_depth))),
        contains_seq(dump_text(c), dump_line("antares_dicfuse_dir_sync_ttl_secs"@, decimal(c.antares_dicfuse_dir_sync_ttl_secs))),
        contains_seq(dump_text(c), dump_line("antares_dicfuse_reply_ttl_secs"@, decimal(c.antares_dicfuse_reply_ttl_secs))),
        contains_seq(dump_text(c), dump_line("antares_dicfuse_stat_mode"@, mode_name(c.antares_dicfuse_stat_mode))),
        contains_seq(dump_text(c), dump_line("antares_dicfuse_open_buff_max_bytes"@, decimal(c.antares_dicfuse_open_buff_max_bytes))),
        contains_seq(dump_text(c), dump_line("antares_dicfuse_open_buff_max_files"@, decimal(c.antares_dicfuse_open_buff_max_files))),
        contains_seq(dump_text(c), dump_line("antares_upper_root"@, debug_text(c.antares_upper_root))),
        contains_seq(dump_text(c), dump_line("antares_cl_root"@, debug_text(c.antares_cl_root))),
        contains_seq(dump_text(c), dump_line("antares_mount_root"@, debug_text(c.antares_mount_root))),
        contains_seq(dump_text(c), dump_line("antares_state_file"@, debug_text(c.antares_state_file))),
{
    broadcast use lemma_contains_grows;
}

} // verus!
