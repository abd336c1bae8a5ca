//! The asset manifest: logical asset names mapped to built file names.
use vstd::prelude::*;
use vstd::string::*;

use crate::errors::Error;
use crate::text::str_eq;

verus! {

/// Built asset files by logical name, and the directory that holds them.
pub struct Manifest {
    entries: Vec<(String, String)>,
    static_path: String,
}

/// The file name recorded for `key`: that of the first entry with this name.
pub open spec fn manifest_lookup(entries: Seq<(String, String)>, key: Seq<char>) -> Option<Seq<char>>
    decreases entries.len(),
{
    if entries.len() == 0 {
        None
    } else if entries[0].0@ == key {
        Some(entries[0].1@)
    } else {
        manifest_lookup(entries.skip(1), key)
    }
}

/// A path under `base`: a relative part is joined with one `/`, an absolute one
/// replaces the base.
pub open spec fn path_join(base: Seq<char>, part: Seq<char>) -> Seq<char> {
    if part.len() > 0 && part[0] == '/' {
        part
    } else if base.len() == 0 || base.last() == '/' {
        base + part
    } else {
        base + seq!['/'] + part
    }
}

impl Manifest {
    pub closed spec fn entries_view(&self) -> Seq<(String, String)> {
        self.entries@
    }

    pub closed spec fn static_path_view(&self) -> Seq<char> {
        self.static_path@
    }

    pub fn new(entries: Vec<(String, String)>, static_path: String) -> (r: Manifest)
        ensures
            r.entries_view() == entries@,
            r.static_path_view() == static_path@,
    {
        Manifest { entries, static_path }
    }

    /// The file name recorded for `key`, if any.
    pub fn lookup(&self, key: &str) -> (r: Option<&str>)
        ensures
            match manifest_lookup(self.entries_view(), key@) {
                Some(v) => (r matches Some(s) && s@ == v),
                None => r is None,
            },
    {
        let mut i: usize = 0;
        assert(self.entries@.skip(0) =~= self.entries@);
        while i < self.entries.len()
            invariant
                i <= self.entries@.len(),
                manifest_lookup(self.entries@.skip(i as int), key@) == manifest_lookup(self.entries@, key@),
            decreases self.entries.len() - i,
        {
            assert(self.entries@.skip(i as int)[0] == self.entries@[i as int]);
            assert(self.entries@.skip(i as int).skip(1) =~= self.entries@.skip(i + 1));
            if str_eq(self.entries[i].0.as_str(), key) {
                return Some(self.entries[i].1.as_str());
            }
            i = i + 1;
        }
        None
    }

    /// The file name recorded for `key`, or `key` itself when the manifest lacks it.
    pub fn get_internal<'a>(&'a self, key: &'a str) -> (r: &'a str)
        ensures
            r@ == match manifest_lookup(self.entries_view(), key@) {
                Some(v) => v,
                None => key@,
            },
    {
        match self.lookup(key) {
            Some(v) => v,
            None => key,
        }
    }

    /// Where the file of `key` lies.
    pub fn get_path(&self, key: &str) -> (r: String)
        ensures
            r@ == path_join(
                self.static_path_view(),
                match manifest_lookup(self.entries_view(), key@) {
                    Some(v) => v,
                    None => key@,
                },
            ),
    {
        let part = self.get_internal(key);
        let base = self.static_path.as_str();
        let part_chars = crate::text::chars_of(part);
        let base_chars = crate::text::chars_of(base);
        if part_chars.len() > 0 && part_chars[0] == '/' {
            return part.to_string();
        }
        let mut out = String::from_str(base);
        if !(base_chars.len() == 0 || base_chars[base_chars.len() - 1] == '/') {
            proof {
                reveal_strlit("/");
            }
            out.append("/");
        }
        out.append(part);
        out
    }

    /// The URL under which the file of `key` is served.
    pub fn get_url(&self, key: &str) -> (r: String)
        ensures
            r@ == "/assets/"@ + match manifest_lookup(self.entries_view(), key@) {
                Some(v) => v,
                None => key@,
            },
    {
        let mut out = String::from_str("/assets/");
        out.append(self.get_internal(key));
        out
    }
}

/// Pages other than the API answer only `GET`, and only to a signed-in person.
pub fn fallback_check(is_get: bool, signed_in: bool) -> (r: Result<(), Error>)
    ensures
        !is_get ==> (r matches Err(e) && e is MethodNotAllowed),
        is_get && !signed_in ==> (r matches Err(e) && e is NotFound),
        is_get && signed_in ==> r is Ok,
{
    if !is_get {
        return Err(Error::MethodNotAllowed);
    }
    if !signed_in {
        return Err(Error::NotFound);
    }
    Ok(())
}

} // verus!
