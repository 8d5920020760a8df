//! The icon cache.
//!
//! Icon names are resolved to file paths once and remembered, including
//! negative results.  The cache is an association list with unique keys;
//! the directory scanning and the theme lookups that feed it stay with
//! the caller, which hands in plain name/path pairs.

use vstd::prelude::*;
use vstd::string::StringSliceAdditionalSpecFns;

use crate::launcher::str_text_eq;
use vstd::string::{StrSliceExecFns, StringExecFns};

verus! {

/// The cached resolution of one icon name, or nothing when the name was
/// never looked up.
pub open spec fn cache_lookup(entries: Seq<(String, Option<String>)>, name: Seq<char>) -> Option<
    Option<String>,
>
    decreases entries.len(),
{
    if entries.len() == 0 {
        Option::None
    } else if entries[0].0@ == name {
        Option::Some(entries[0].1)
    } else {
        cache_lookup(entries.skip(1), name)
    }
}

/// A cache of resolved icon names.  A remembered `None` means the name
/// was looked up and no icon was found.
pub struct CustomIconTheme {
    pub entries: Vec<(String, Option<String>)>,
}

impl CustomIconTheme {
    /// Every name is remembered at most once.
    pub open spec fn wf(self) -> bool {
        forall|i: int, j: int|
            0 <= i < j < self.entries@.len() ==> (#[trigger] self.entries@[i]).0@ != (
            #[trigger] self.entries@[j]).0@
    }

    pub fn new() -> (r: CustomIconTheme)
        ensures
            r.wf(),
            r.entries@.len() == 0,
    {
        CustomIconTheme { entries: Vec::new() }
    }

    /// The cached resolution of `name`: present or negative, or nothing
    /// when the name was never resolved.
    pub fn lookup_icon(&self, name: &str) -> (r: Option<Option<String>>)
        ensures
            match cache_lookup(self.entries@, name@) {
                Option::Some(v) => r matches Option::Some(w) && crate::launcher::opt_str_eq(w, v),
                Option::None => r is None,
            },
    {
        let mut i: usize = 0;
        proof {
            assert(self.entries@.skip(0) =~= self.entries@);
        }
        #[verifier::loop_isolation(false)]
        while i < self.entries.len()
            invariant
                i <= self.entries@.len(),
                cache_lookup(self.entries@, name@) == cache_lookup(
                    self.entries@.skip(i as int),
                    name@,
                ),
            decreases self.entries@.len() - i,
        {
            let entry = &self.entries[i];
            proof {
                assert(self.entries@.skip(i as int)[0] == self.entries@[i as int]);
                assert(self.entries@.skip(i as int).skip(1) =~= self.entries@.skip(i + 1));
            }
            if str_text_eq(entry.0.as_str(), name) {
                let copied = match &entry.1 {
                    Option::Some(p) => Option::Some(p.clone()),
                    Option::None => Option::None,
                };
                return Option::Some(copied);
            }
            i += 1;
        }
        proof {
            assert(self.entries@.skip(self.entries@.len() as int).len() == 0);
        }
        Option::None
    }

    /// Remembers a resolution for `name` if none is cached yet; an
    /// existing entry, positive or negative, is kept.
    pub fn insert_if_absent(&mut self, name: String, path: Option<String>)
        requires
            old(self).wf(),
        ensures
            final (self).wf(),
            cache_lookup(final (self).entries@, name@) is Some,
            forall|n: Seq<char>|
                cache_lookup(old(self).entries@, n) is Some ==> #[trigger] cache_lookup(
                    final (self).entries@,
                    n,
                ) == cache_lookup(old(self).entries@, n),
    {
        match self.lookup_icon(name.as_str()) {
            Option::Some(_) => {
                assert(cache_lookup(self.entries@, name@) is Some);
            },
            Option::None => {
                let ghost before = self.entries@;
                self.entries.push((name, path));
                proof {
                    lemma_cache_push(before, self.entries@[before.len() as int]);
                    assert forall|i: int, j: int|
                        0 <= i < j < self.entries@.len() implies (#[trigger] self.entries@[i]).0@
                        != (#[trigger] self.entries@[j]).0@ by {
                        if j == before.len() {
                            lemma_absent_key_differs(before, i, self.entries@[j].0@);
                        }
                    }
                }
            },
        }
    }

    /// Fills the cache from a directory scan: each scanned name/path pair
    /// is remembered unless the name is already cached, earlier entries
    /// winning, as when a directory tree is walked top down.
    pub fn add_path(&mut self, scanned: Vec<(String, String)>)
        requires
            old(self).wf(),
        ensures
            final (self).wf(),
            forall|n: Seq<char>|
                cache_lookup(old(self).entries@, n) is Some ==> #[trigger] cache_lookup(
                    final (self).entries@,
                    n,
                ) == cache_lookup(old(self).entries@, n),
    {
        let mut rest = scanned;
        loop
            invariant
                self.wf(),
                forall|n: Seq<char>|
                    cache_lookup(old(self).entries@, n) is Some ==> #[trigger] cache_lookup(
                        self.entries@,
                        n,
                    ) == cache_lookup(old(self).entries@, n),
            decreases rest@.len(),
        {
            if rest.len() == 0 {
                break ;
            }
            let (name, path) = rest.remove(0);
            self.insert_if_absent(name, Option::Some(path));
        }
    }
}

/// Looking up a key that is absent from every entry walks past a pushed
/// entry unchanged; the pushed entry itself is found.
proof fn lemma_cache_push(entries: Seq<(String, Option<String>)>, e: (String, Option<String>))
    ensures
        forall|n: Seq<char>|
            #[trigger] cache_lookup(entries.push(e), n) == if cache_lookup(entries, n) is Some {
                cache_lookup(entries, n)
            } else if e.0@ == n {
                Option::Some(e.1)
            } else {
                Option::<Option<String>>::None
            },
    decreases entries.len(),
{
    if entries.len() == 0 {
        assert forall|n: Seq<char>| #[trigger] cache_lookup(entries.push(e), n) == (if cache_lookup(
            entries,
            n,
        ) is Some {
            cache_lookup(entries, n)
        } else if e.0@ == n {
            Option::Some(e.1)
        } else {
            Option::<Option<String>>::None
        }) by {
            assert(entries.push(e)[0] == e);
            assert(entries.push(e).skip(1) =~= entries);
        }
    } else {
        lemma_cache_push(entries.skip(1), e);
        assert forall|n: Seq<char>| #[trigger] cache_lookup(entries.push(e), n) == (if cache_lookup(
            entries,
            n,
        ) is Some {
            cache_lookup(entries, n)
        } else if e.0@ == n {
            Option::Some(e.1)
        } else {
            Option::<Option<String>>::None
        }) by {
            assert(entries.push(e)[0] == entries[0]);
            assert(entries.push(e).skip(1) =~= entries.skip(1).push(e));
            assert(cache_lookup(entries.skip(1).push(e), n) == (if cache_lookup(
                entries.skip(1),
                n,
            ) is Some {
                cache_lookup(entries.skip(1), n)
            } else if e.0@ == n {
                Option::Some(e.1)
            } else {
                Option::<Option<String>>::None
            }));
        }
    }
}

/// A key that the lookup does not find differs from every entry's key.
proof fn lemma_absent_key_differs(entries: Seq<(String, Option<String>)>, i: int, n: Seq<char>)
    requires
        0 <= i < entries.len(),
        cache_lookup(entries, n) is None,
    ensures
        entries[i].0@ != n,
    decreases i,
{
    if i > 0 {
        lemma_absent_key_differs(entries.skip(1), i - 1, n);
    }
}

/// An explicitly constructed icon-cache context: the owner hands it to
/// whoever resolves icons, in place of ambient global state.
pub struct IconThemeGuard {
    pub theme: CustomIconTheme,
}

impl IconThemeGuard {
    pub fn new() -> (r: IconThemeGuard)
        ensures
            r.theme.wf(),
            r.theme.entries@.len() == 0,
    {
        IconThemeGuard { theme: CustomIconTheme::new() }
    }

    /// Fills the cache from a directory scan.
    pub fn add_path(&mut self, scanned: Vec<(String, String)>)
        requires
            old(self).theme.wf(),
        ensures
            final (self).theme.wf(),
            forall|n: Seq<char>|
                cache_lookup(old(self).theme.entries@, n) is Some ==> #[trigger] cache_lookup(
                    final (self).theme.entries@,
                    n,
                ) == cache_lookup(old(self).theme.entries@, n),
    {
        self.theme.add_path(scanned);
    }

    /// The cached resolution of `name`.
    pub fn lookup_icon(&self, name: &str) -> (r: Option<Option<String>>)
        ensures
            match cache_lookup(self.theme.entries@, name@) {
                Option::Some(v) => r matches Option::Some(w) && crate::launcher::opt_str_eq(w, v),
                Option::None => r is None,
            },
    {
        self.theme.lookup_icon(name)
    }
}

/// Expands a leading `~/` in a configured icon path to the home
/// directory.
pub fn expand_home(path: &str, home: &str) -> (r: String)
    ensures
        ({
            let p = path@;
            if p.len() >= 2 && p[0] == '~' && p[1] == '/' {
                r@ == home@ + "/"@ + p.skip(2)
            } else {
                r@ == p
            }
        }),
{
    let len = path.unicode_len();
    if len >= 2 && path.get_char(0) == '~' && path.get_char(1) == '/' {
        let rest = path.substring_char(2, len);
        let mut out = String::from_str(home);
        out.append("/");
        out.append(rest);
        proof {
            assert(rest@ =~= path@.skip(2));
            assert(out@ =~= home@ + "/"@ + path@.skip(2));
        }
        out
    } else {
        let out = String::from_str(path);
        out
    }
}

} // verus!
