//! Which `Host` values the gateway answers to, and two small rules on
//! paths and header names that go with them.
//!
//! A trusted host is written as its domain labels from right to left:
//! `example.com` is `["com", "example"]`. A label `*` stands for any one
//! label, and as the last label of a pattern for any deeper subdomain too.

use crate::text::{
    chars_eq_ignore_case, chars_start_with, eq_ignore_case, first_index, index_of_char,
    lemma_eq_ignore_case_carries, lemma_first_index, split, split_chars, sub_chars, texts,
    to_chars, to_text,
};
use vstd::prelude::*;

verus! {

/// The texts of a pattern's labels.
pub open spec fn pattern_view(pattern: Vec<String>) -> Seq<Seq<char>> {
    pattern@.map_values(|label: String| label@)
}

/// The patterns of a list of trusted hosts.
pub open spec fn patterns_view(patterns: Seq<Vec<String>>) -> Seq<Seq<Seq<char>>> {
    patterns.map_values(|pattern: Vec<String>| pattern_view(pattern))
}

/// The host of a `Host` value, without its port: what stands between the
/// brackets of a bracketed address, else what stands before the first
/// colon.
pub open spec fn host_without_port(host: Seq<char>) -> Seq<char> {
    if host.len() > 0 && host[0] == '[' {
        host.subrange(1, first_index(host, ']'))
    } else {
        host.take(first_index(host, ':'))
    }
}

/// The domain labels of a `Host` value, from left to right.
pub open spec fn host_labels(host: Seq<char>) -> Seq<Seq<char>> {
    split(host_without_port(host), '.')
}

/// The label that matches any label.
pub open spec fn is_wildcard(label: Seq<char>) -> bool {
    label == seq!['*']
}

/// A host label meets a pattern label: the wildcard, or the same label up
/// to the case of ASCII letters.
pub open spec fn label_matches(label: Seq<char>, pattern_label: Seq<char>) -> bool {
    is_wildcard(pattern_label) || eq_ignore_case(label, pattern_label)
}

/// A host, by its labels from left to right, meets a pattern, written
/// from right to left: label by label from the right, with as many labels
/// as the pattern, or more where the pattern ends in the wildcard.
pub open spec fn pattern_matches(labels: Seq<Seq<char>>, pattern: Seq<Seq<char>>) -> bool {
    &&& pattern.len() > 0
    &&& labels.len() == pattern.len() || (labels.len() > pattern.len() && is_wildcard(
        pattern.last(),
    ))
    &&& forall|i: int|
        0 <= i < pattern.len() ==> label_matches(
            labels[labels.len() - 1 - i],
            #[trigger] pattern[i],
        )
}

/// The `Host` value names a trusted host: it is not empty and meets one
/// of the patterns.
pub open spec fn host_trusted(host: Seq<char>, patterns: Seq<Seq<Seq<char>>>) -> bool {
    &&& host.len() > 0
    &&& exists|k: int|
        0 <= k < patterns.len() && pattern_matches(host_labels(host), #[trigger] patterns[k])
}

/// `path` without `prefix` in front: the rest where `prefix` is not empty
/// and `path` begins with it, `/` where nothing is left, else `path`.
pub open spec fn without_prefix(path: Seq<char>, prefix: Seq<char>) -> Seq<char> {
    if prefix.len() > 0 && prefix.is_prefix_of(path) {
        if path.len() == prefix.len() {
            seq!['/']
        } else {
            path.skip(prefix.len() as int)
        }
    } else {
        path
    }
}

/// A header name of the cross-origin family: it begins with
/// `access-control-`, in any case.
pub open spec fn cors_header_name(name: Seq<char>) -> bool {
    &&& name.len() >= 15
    &&& eq_ignore_case(name.take(15), "access-control-"@)
}

/// The port does not count: a host that is not bracketed and holds no
/// colon is trusted with a port behind it exactly where it is trusted
/// without.
pub proof fn law_port_does_not_count(
    host: Seq<char>,
    port: Seq<char>,
    patterns: Seq<Seq<Seq<char>>>,
)
    requires
        host.len() > 0,
        host[0] != '[',
        forall|i: int| 0 <= i < host.len() ==> host[i] != ':',
    ensures
        host_without_port(host) == host,
        host_without_port(host + seq![':'] + port) == host,
        host_trusted(host + seq![':'] + port, patterns) == host_trusted(host, patterns),
{
    let with_port = host + seq![':'] + port;
    lemma_first_index(host, ':', host.len() as int);
    lemma_first_index(with_port, ':', host.len() as int);
}

/// Letters count in neither case: a pattern is met by labels exactly
/// where it is met by labels that differ from them in the case of ASCII
/// letters only.
pub proof fn law_case_does_not_count(
    labels: Seq<Seq<char>>,
    others: Seq<Seq<char>>,
    pattern: Seq<Seq<char>>,
)
    requires
        labels.len() == others.len(),
        forall|i: int| 0 <= i < labels.len() ==> eq_ignore_case(#[trigger] labels[i], others[i]),
    ensures
        pattern_matches(labels, pattern) == pattern_matches(others, pattern),
{
    if pattern_matches(labels, pattern) {
        assert forall|i: int| 0 <= i < pattern.len() implies label_matches(
            others[others.len() - 1 - i],
            #[trigger] pattern[i],
        ) by {
            let at = labels.len() - 1 - i;
            lemma_eq_ignore_case_carries(labels[at], others[at], pattern[i]);
        }
    }
    if pattern_matches(others, pattern) {
        assert forall|i: int| 0 <= i < pattern.len() implies label_matches(
            labels[labels.len() - 1 - i],
            #[trigger] pattern[i],
        ) by {
            let at = labels.len() - 1 - i;
            lemma_eq_ignore_case_carries(labels[at], others[at], pattern[i]);
        }
    }
}

/// Without patterns no host is trusted, and the empty host never is.
pub proof fn law_nothing_is_trusted_by_default(host: Seq<char>, patterns: Seq<Seq<Seq<char>>>)
    ensures
        !host_trusted(host, Seq::empty()),
        !host_trusted(Seq::empty(), patterns),
{
}

/// The host of a `Host` value, without its port.
pub fn strip_port(host: &Vec<char>) -> (name: Vec<char>)
    ensures
        name@ == host_without_port(host@),
{
    if host.len() > 0 && host[0] == '[' {
        let close = index_of_char(host, ']');
        sub_chars(host, 1, close)
    } else {
        let colon = index_of_char(host, ':');
        sub_chars(host, 0, colon)
    }
}

/// Whether a host, by its labels from left to right, meets `pattern`.
pub fn labels_match_pattern(labels: &Vec<Vec<char>>, pattern: &Vec<String>) -> (r: bool)
    ensures
        r == pattern_matches(texts(labels@), pattern_view(*pattern)),
{
    let n: usize = pattern.len();
    if n == 0 || labels.len() < n {
        return false;
    }
    let ghost want = pattern_view(*pattern);
    let ghost have = texts(labels@);
    if labels.len() > n {
        let last = to_chars(pattern[n - 1].as_str());
        let star: bool = last.len() == 1 && last[0] == '*';
        assert(star == is_wildcard(want.last())) by {
            if star {
                assert(last@ =~= seq!['*']);
            }
        }
        if !star {
            return false;
        }
    }
    let mut i: usize = 0;
    while i < n
        invariant
            n == pattern.len(),
            n <= labels.len(),
            i <= n,
            want == pattern_view(*pattern),
            have == texts(labels@),
            forall|j: int| 0 <= j < i ==> label_matches(have[have.len() - 1 - j], #[trigger] want[j]),
        decreases n - i,
    {
        let pattern_label = to_chars(pattern[i].as_str());
        let star: bool = pattern_label.len() == 1 && pattern_label[0] == '*';
        assert(star == is_wildcard(want[i as int])) by {
            if star {
                assert(pattern_label@ =~= seq!['*']);
            }
        }
        if !star {
            let same = chars_eq_ignore_case(&labels[labels.len() - 1 - i], &pattern_label);
            if !same {
                return false;
            }
        }
        i += 1;
    }
    true
}

/// Whether the `Host` value names a trusted host.
pub fn is_valid_host(host: &str, trusted_hosts: &Vec<Vec<String>>) -> (r: bool)
    ensures
        r == host_trusted(host@, patterns_view(trusted_hosts@)),
{
    let chars = to_chars(host);
    if chars.len() == 0 {
        return false;
    }
    let name = strip_port(&chars);
    let labels = split_chars(&name, '.');
    let ghost patterns = patterns_view(trusted_hosts@);
    let mut k: usize = 0;
    while k < trusted_hosts.len()
        invariant
            k <= trusted_hosts.len(),
            host@.len() > 0,
            patterns == patterns_view(trusted_hosts@),
            texts(labels@) == host_labels(host@),
            forall|j: int| 0 <= j < k ==> !pattern_matches(host_labels(host@), #[trigger] patterns[j]),
        decreases trusted_hosts.len() - k,
    {
        let hit = labels_match_pattern(&labels, &trusted_hosts[k]);
        assert(patterns[k as int] == pattern_view(trusted_hosts@[k as int]));
        if hit {
            return true;
        }
        k += 1;
    }
    false
}

/// `path` without `prefix` in front.
pub fn remove_prefix(path: &str, prefix: &str) -> (rest: String)
    ensures
        rest@ == without_prefix(path@, prefix@),
{
    let path_chars = to_chars(path);
    let prefix_chars = to_chars(prefix);
    if prefix_chars.len() > 0 && chars_start_with(&path_chars, &prefix_chars) {
        if path_chars.len() == prefix_chars.len() {
            let rest = "/".to_string();
            proof {
                reveal_strlit("/");
            }
            rest
        } else {
            to_text(&path_chars, prefix_chars.len(), path_chars.len())
        }
    } else {
        let rest = to_text(&path_chars, 0, path_chars.len());
        rest
    }
}

/// Whether a header name belongs to the cross-origin family.
pub fn is_cors_header(name: &str) -> (r: bool)
    ensures
        r == cors_header_name(name@),
{
    let chars = to_chars(name);
    let family = to_chars("access-control-");
    if chars.len() < 15 {
        return false;
    }
    let head = sub_chars(&chars, 0, 15);
    chars_eq_ignore_case(&head, &family)
}

} // verus!
