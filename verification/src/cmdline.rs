//! Kernel command-line overrides.
//!
//! The kernel exposes the parameters it was booted with as a single line of
//! whitespace-separated tokens. This module parses that line into the small
//! set of typed overrides the rest of the system understands. Parsing never
//! fails on content: unrecognised tokens are silently ignored, a repeated
//! token keeps its last occurrence, and an empty line leaves every field at
//! its zero value.

use vstd::prelude::*;

use crate::text::{has_prefix, spec_split, split_chars, str_eq};

verus! {

/// The overrides parsed from the kernel command line. Immutable once parsed;
/// constructed exactly once per run from a single line of text.
pub struct CmdLine {
    /// The location of the configuration file to use, if not the default.
    pub config_file: Option<String>,
    /// Usernames of the github users whose published public ssh keys the
    /// local root user will trust.
    pub github_usernames: Vec<String>,
    /// Whether the operating system ought to be installed permanently.
    pub install_flag: bool,
    /// Whether this boot is likely from the live image rather than a disk.
    pub live_flag: bool,
}

/// The mathematical value of a [`CmdLine`]: the same fields over sequences
/// of characters.
pub struct CmdLineView {
    pub config_file: Option<Seq<char>>,
    pub github_usernames: Seq<Seq<char>>,
    pub install_flag: bool,
    pub live_flag: bool,
}

impl View for CmdLine {
    type V = CmdLineView;

    open spec fn view(&self) -> CmdLineView {
        CmdLineView {
            config_file: self.config_file.deep_view(),
            github_usernames: self.github_usernames.deep_view(),
            install_flag: self.install_flag,
            live_flag: self.live_flag,
        }
    }
}

/// All fields at their zero value: no overrides.
pub open spec fn spec_empty_overrides() -> CmdLineView {
    CmdLineView {
        config_file: None,
        github_usernames: Seq::empty(),
        install_flag: false,
        live_flag: false,
    }
}

/// What one whitespace-delimited token does to the overrides. A
/// `config_file=` or `github_usernames=` token replaces the whole previous
/// value of its field; the bare tokens `install` and `live` set their flag;
/// every other token changes nothing.
pub open spec fn spec_apply_token(st: CmdLineView, tok: Seq<char>) -> CmdLineView {
    if "config_file="@.is_prefix_of(tok) {
        CmdLineView { config_file: Some(tok.skip("config_file="@.len() as int)), ..st }
    } else if "github_usernames="@.is_prefix_of(tok) {
        CmdLineView {
            github_usernames: spec_split(tok.skip("github_usernames="@.len() as int), ','),
            ..st
        }
    } else if tok == "install"@ {
        CmdLineView { install_flag: true, ..st }
    } else if tok == "live"@ {
        CmdLineView { live_flag: true, ..st }
    } else {
        st
    }
}

/// The tokens applied in order, so a later occurrence wins over an earlier
/// one.
pub open spec fn spec_apply_tokens(st: CmdLineView, toks: Seq<Seq<char>>) -> CmdLineView
    decreases toks.len(),
{
    if toks.len() == 0 {
        st
    } else {
        spec_apply_token(spec_apply_tokens(st, toks.drop_last()), toks.last())
    }
}

/// The overrides a command line denotes: the line split on single spaces,
/// each token applied in order to the zero value.
pub open spec fn spec_parse_line(line: Seq<char>) -> CmdLineView {
    spec_apply_tokens(spec_empty_overrides(), spec_split(line, ' '))
}

fn apply_token(st: &mut CmdLine, tok: &str)
    ensures
        final (st)@ == spec_apply_token(old(st)@, tok@),
{
    if has_prefix(tok, "config_file=") {
        let plen = "config_file=".unicode_len();
        let value = tok.substring_char(plen, tok.unicode_len()).to_owned();
        proof {
            assert(value@ =~= tok@.skip("config_file="@.len() as int));
        }
        st.config_file = Some(value);
    } else if has_prefix(tok, "github_usernames=") {
        let plen = "github_usernames=".unicode_len();
        let value = tok.substring_char(plen, tok.unicode_len());
        proof {
            assert(value@ =~= tok@.skip("github_usernames="@.len() as int));
        }
        st.github_usernames = split_chars(value, ',');
    } else if str_eq(tok, "install") {
        st.install_flag = true;
    } else if str_eq(tok, "live") {
        st.live_flag = true;
    }
}

impl CmdLine {
    /// Parses one line of the kernel command line into the typed overrides.
    /// Never fails: every line, including the empty one, denotes a value.
    pub fn parse_line(line: &str) -> (r: CmdLine)
        ensures
            r@ == spec_parse_line(line@),
    {
        let toks = split_chars(line, ' ');
        let mut r = CmdLine {
            config_file: None,
            github_usernames: Vec::new(),
            install_flag: false,
            live_flag: false,
        };
        proof {
            assert(r@.github_usernames =~= spec_empty_overrides().github_usernames);
            assert(r@ == spec_empty_overrides());
        }
        let mut k: usize = 0;
        while k < toks.len()
            invariant
                0 <= k <= toks.len(),
                toks.deep_view() == spec_split(line@, ' '),
                r@ == spec_apply_tokens(spec_empty_overrides(), toks.deep_view().take(k as int)),
            decreases toks.len() - k,
        {
            proof {
                assert(toks.deep_view().take(k as int + 1).drop_last() =~= toks.deep_view().take(
                    k as int,
                ));
                assert(toks.deep_view().take(k as int + 1).last() == toks@[k as int]@);
            }
            apply_token(&mut r, toks[k].as_str());
            k = k + 1;
        }
        proof {
            assert(toks.deep_view().take(toks.len() as int) =~= toks.deep_view());
        }
        r
    }
}

/// Parsing is a pure function of the line: any two results obtained from the
/// same line are the same value, so parsing twice changes nothing.
pub proof fn lemma_parse_idempotent(a: CmdLineView, b: CmdLineView, line: Seq<char>)
    requires
        a == spec_parse_line(line),
        b == spec_parse_line(line),
    ensures
        a == b,
{
}

/// The `install` flag is set exactly when the bare token `install` appears
/// somewhere among the applied tokens.
proof fn lemma_apply_tokens_install(st: CmdLineView, toks: Seq<Seq<char>>)
    ensures
        spec_apply_tokens(st, toks).install_flag <==> (st.install_flag || exists|i: int|
            0 <= i < toks.len() && toks[i] == "install"@),
    decreases toks.len(),
{
    reveal_strlit("install");
    reveal_strlit("config_file=");
    reveal_strlit("github_usernames=");
    if toks.len() > 0 {
        lemma_apply_tokens_install(st, toks.drop_last());
        let prev = spec_apply_tokens(st, toks.drop_last());
        if prev.install_flag {
            assert(spec_apply_tokens(st, toks).install_flag);
            if !st.install_flag {
                let i = choose|i: int|
                    0 <= i < toks.drop_last().len() && toks.drop_last()[i] == "install"@;
                assert(toks[i] == "install"@);
            }
        } else if toks.last() == "install"@ {
            assert(spec_apply_tokens(st, toks).install_flag);
            assert(toks[toks.len() - 1] == "install"@);
        } else {
            assert(!spec_apply_tokens(st, toks).install_flag);
            assert forall|i: int| 0 <= i < toks.len() implies toks[i] != "install"@ by {
                if i < toks.len() - 1 {
                    assert(toks.drop_last()[i] == toks[i]);
                }
            }
        }
    }
}

/// The bare token `install` present anywhere in the line sets the install
/// flag; absent everywhere leaves it `false`. The `live` token is handled
/// identically, and this lemma is its shape as well.
pub proof fn lemma_parse_install_flag(line: Seq<char>)
    ensures
        spec_parse_line(line).install_flag <==> exists|i: int|
            0 <= i < spec_split(line, ' ').len() && spec_split(line, ' ')[i] == "install"@,
{
    lemma_apply_tokens_install(spec_empty_overrides(), spec_split(line, ' '));
}

/// The config-file override a token list denotes, seen from the right: the
/// first `config_file=` token found decides, which in application order is
/// the last one seen.
pub open spec fn spec_config_file_of(
    prior: Option<Seq<char>>,
    toks: Seq<Seq<char>>,
) -> Option<Seq<char>>
    decreases toks.len(),
{
    if toks.len() == 0 {
        prior
    } else if "config_file="@.is_prefix_of(toks.last()) {
        Some(toks.last().skip("config_file="@.len() as int))
    } else {
        spec_config_file_of(prior, toks.drop_last())
    }
}

/// A duplicated `config_file=` token keeps its last occurrence: the parsed
/// field is decided by the last such token alone, whatever came before.
pub proof fn lemma_config_file_last_wins(st: CmdLineView, toks: Seq<Seq<char>>)
    ensures
        spec_apply_tokens(st, toks).config_file == spec_config_file_of(st.config_file, toks),
    decreases toks.len(),
{
    if toks.len() > 0 {
        lemma_config_file_last_wins(st, toks.drop_last());
    }
}

/// The username list a token list denotes, seen from the right: the first
/// `github_usernames=` token found decides, which in application order is
/// the last one seen.
pub open spec fn spec_usernames_of(
    prior: Seq<Seq<char>>,
    toks: Seq<Seq<char>>,
) -> Seq<Seq<char>>
    decreases toks.len(),
{
    if toks.len() == 0 {
        prior
    } else if "github_usernames="@.is_prefix_of(toks.last()) {
        spec_split(toks.last().skip("github_usernames="@.len() as int), ',')
    } else {
        spec_usernames_of(prior, toks.drop_last())
    }
}

/// A later `github_usernames=` token fully replaces any prior list: the
/// parsed list is decided by the last such token alone.
pub proof fn lemma_usernames_last_wins(st: CmdLineView, toks: Seq<Seq<char>>)
    ensures
        spec_apply_tokens(st, toks).github_usernames == spec_usernames_of(
            st.github_usernames,
            toks,
        ),
    decreases toks.len(),
{
    reveal_strlit("config_file=");
    reveal_strlit("github_usernames=");
    if toks.len() > 0 {
        lemma_usernames_last_wins(st, toks.drop_last());
        let t = toks.last();
        if "github_usernames="@.is_prefix_of(t) && "config_file="@.is_prefix_of(t) {
            // No token carries both prefixes: they already differ in their
            // first character.
            assert(t[0] == "config_file="@[0]);
            assert(t[0] == "github_usernames="@[0]);
            assert(false);
        }
    }
}

/// If no applied token carries the `github_usernames=` prefix, the username
/// list is left as it was.
proof fn lemma_apply_tokens_usernames_absent(st: CmdLineView, toks: Seq<Seq<char>>)
    requires
        forall|i: int| 0 <= i < toks.len() ==> !("github_usernames="@.is_prefix_of(toks[i])),
    ensures
        spec_apply_tokens(st, toks).github_usernames == st.github_usernames,
    decreases toks.len(),
{
    if toks.len() > 0 {
        assert forall|i: int| 0 <= i < toks.drop_last().len() implies !("github_usernames="@
            .is_prefix_of(toks.drop_last()[i])) by {
            assert(toks.drop_last()[i] == toks[i]);
        }
        lemma_apply_tokens_usernames_absent(st, toks.drop_last());
        assert(toks[toks.len() - 1] == toks.last());
    }
}

/// A line with no `github_usernames=` token yields the empty username list.
pub proof fn lemma_parse_usernames_absent(line: Seq<char>)
    requires
        forall|i: int|
            0 <= i < spec_split(line, ' ').len() ==> !("github_usernames="@.is_prefix_of(
                spec_split(line, ' ')[i],
            )),
    ensures
        spec_parse_line(line).github_usernames == Seq::<Seq<char>>::empty(),
{
    lemma_apply_tokens_usernames_absent(spec_empty_overrides(), spec_split(line, ' '));
}

} // verus!
