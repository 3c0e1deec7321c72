//! The server.properties model: parsing `key=value` lines, editing fields,
//! and rendering the lines to write back.
//!
//! A line starting with `#` is a comment. Any other line must hold a `=`;
//! the key is the trimmed text before the first `=`, the value the trimmed
//! text between the first `=` and the second one (or the end of the line).
//! When a key repeats across lines, the later line wins.

use vstd::prelude::*;
use vstd::string::StrSliceExecFns;

use crate::kvlist::{kv_get, kv_lookup, kv_replace, kv_unique, kv_upsert};
use crate::text::{find_char, find_char_from, spec_trimmed, trim_str};

verus! {

#[derive(Clone, Copy, Debug, PartialEq, Eq, Structural)]
pub enum PropertiesError {
    NotFound,
    InvalidValue,
}

/// Lines starting with `#` carry no entry.
pub open spec fn is_comment_line(line: Seq<char>) -> bool {
    line.len() > 0 && line[0] == '#'
}

/// A line is acceptable when it is a comment or holds a `=`.
pub open spec fn line_ok(line: Seq<char>) -> bool {
    is_comment_line(line) || find_char(line, '=', 0) is Some
}

/// The key/value pair a line carries: none for comments, the trimmed
/// pieces around the first `=` otherwise.
pub open spec fn line_kv(line: Seq<char>) -> Option<(Seq<char>, Seq<char>)> {
    if is_comment_line(line) {
        None
    } else {
        match find_char(line, '=', 0) {
            None => None,
            Some(i) => {
                let stop = match find_char(line, '=', i + 1) {
                    Some(j) => j,
                    None => line.len() as int,
                };
                Some(
                    (
                        spec_trimmed(line.subrange(0, i)),
                        spec_trimmed(line.subrange(i + 1, stop)),
                    ),
                )
            },
        }
    }
}

/// What a sequence of lines says a key is set to: the value of the last
/// line that sets the key.
pub open spec fn lines_lookup(lines: Seq<String>, key: Seq<char>) -> Option<Seq<char>>
    decreases lines.len(),
{
    if lines.len() == 0 {
        None
    } else {
        match line_kv(lines.last()@) {
            Some(kv) => if kv.0 == key {
                Some(kv.1)
            } else {
                lines_lookup(lines.drop_last(), key)
            },
            None => lines_lookup(lines.drop_last(), key),
        }
    }
}

/// Parse one properties line: `Ok(None)` for a comment, the trimmed pair
/// for a settings line, `InvalidValue` for a line without `=`.
pub fn parse_property_line(line: &str) -> (r: Result<Option<(String, String)>, PropertiesError>)
    ensures
        match r {
            Ok(o) => line_ok(line@) && (match o {
                Some(kv) => line_kv(line@) matches Some(t) && kv.0@ == t.0 && kv.1@ == t.1,
                None => line_kv(line@) is None,
            }),
            Err(e) => e == PropertiesError::InvalidValue && !line_ok(line@),
        },
{
    let slen = line.unicode_len();
    if slen > 0 && line.get_char(0) == '#' {
        return Ok(None);
    }
    match find_char_from(line, '=', 0) {
        None => Err(PropertiesError::InvalidValue),
        Some(i) => {
            let stop = match find_char_from(line, '=', i + 1) {
                Some(j) => j,
                None => slen,
            };
            let key = trim_str(line.substring_char(0, i));
            let value = trim_str(line.substring_char(i + 1, stop));
            Ok(Some((key, value)))
        },
    }
}

/// The parsed server.properties file and the path it came from.
pub struct PropertiesManager {
    properties: Vec<(String, String)>,
    path_to_properties: String,
}

impl PropertiesManager {
    /// Each key is stored once.
    pub closed spec fn wf(&self) -> bool {
        kv_unique(self.properties@)
    }

    /// The stored key/value pairs, first seen first.
    pub closed spec fn entries(&self) -> Seq<(String, String)> {
        self.properties@
    }

    /// Where the file lives.
    pub closed spec fn path(&self) -> Seq<char> {
        self.path_to_properties@
    }

    /// Parse a properties file read as lines. Fails on the first line that
    /// is neither a comment nor a `key=value` setting; otherwise every key
    /// resolves to what the last line setting it says.
    pub fn new(path: String, lines: &Vec<String>) -> (r: Result<
        PropertiesManager,
        PropertiesError,
    >)
        ensures
            match r {
                Ok(pm) => {
                    &&& pm.wf()
                    &&& pm.path() == path@
                    &&& forall|i: int| 0 <= i < lines@.len() ==> line_ok(#[trigger] lines@[i]@)
                    &&& forall|key: Seq<char>|
                        kv_lookup(pm.entries(), key) == lines_lookup(lines@, key)
                },
                Err(e) => e == PropertiesError::InvalidValue && exists|i: int|
                    0 <= i < lines@.len() && !line_ok(#[trigger] lines@[i]@),
            },
    {
        let mut props: Vec<(String, String)> = Vec::new();
        let mut k: usize = 0;
        proof {
            assert(lines@.subrange(0, 0).len() == 0);
        }
        while k < lines.len()
            invariant
                k <= lines@.len(),
                kv_unique(props@),
                forall|i: int| 0 <= i < k ==> line_ok(#[trigger] lines@[i]@),
                forall|key: Seq<char>|
                    kv_lookup(props@, key) == lines_lookup(lines@.subrange(0, k as int), key),
            decreases lines@.len() - k,
        {
            let ghost pre_props = props@;
            match parse_property_line(lines[k].as_str()) {
                Err(_) => {
                    return Err(PropertiesError::InvalidValue);
                },
                Ok(None) => {
                    proof {
                        let cur = lines@.subrange(0, k as int + 1);
                        assert(cur.drop_last() =~= lines@.subrange(0, k as int));
                        assert(cur.last() == lines@[k as int]);
                    }
                },
                Ok(Some(kv)) => {
                    kv_upsert(&mut props, kv.0, kv.1);
                    proof {
                        let cur = lines@.subrange(0, k as int + 1);
                        assert(cur.drop_last() =~= lines@.subrange(0, k as int));
                        assert(cur.last() == lines@[k as int]);
                    }
                },
            }
            k = k + 1;
        }
        proof {
            assert(lines@.subrange(0, lines@.len() as int) =~= lines@);
        }
        Ok(PropertiesManager { properties: props, path_to_properties: path })
    }

    /// The value a field is set to.
    pub fn get_field(&self, field: &str) -> (r: Result<&String, PropertiesError>)
        ensures
            match r {
                Ok(v) => kv_lookup(self.entries(), field@) == Some(v@),
                Err(e) => e == PropertiesError::NotFound && kv_lookup(
                    self.entries(),
                    field@,
                ) is None,
            },
    {
        match kv_get(&self.properties, field) {
            Some(v) => Ok(v),
            None => Err(PropertiesError::NotFound),
        }
    }

    /// Rewrite an existing field. A field that does not exist is refused
    /// and nothing changes.
    pub fn edit_field(&mut self, field: String, value: String) -> (r: Result<
        (),
        PropertiesError,
    >)
        requires
            old(self).wf(),
        ensures
            final(self).wf(),
            final(self).path() == old(self).path(),
            match r {
                Ok(_) => {
                    &&& kv_lookup(old(self).entries(), field@) is Some
                    &&& kv_lookup(final(self).entries(), field@) == Some(value@)
                    &&& forall|n: Seq<char>|
                        n != field@ ==> kv_lookup(final(self).entries(), n) == kv_lookup(
                            old(self).entries(),
                            n,
                        )
                },
                Err(e) => {
                    &&& e == PropertiesError::NotFound
                    &&& kv_lookup(old(self).entries(), field@) is None
                    &&& *final(self) == *old(self)
                },
            },
    {
        if kv_replace(&mut self.properties, field, value) {
            Ok(())
        } else {
            Err(PropertiesError::NotFound)
        }
    }

    /// Store a field, creating it when absent.
    pub fn set_field(&mut self, field: String, value: String)
        requires
            old(self).wf(),
        ensures
            final(self).wf(),
            final(self).path() == old(self).path(),
            kv_lookup(final(self).entries(), field@) == Some(value@),
            forall|n: Seq<char>|
                n != field@ ==> kv_lookup(final(self).entries(), n) == kv_lookup(
                    old(self).entries(),
                    n,
                ),
    {
        kv_upsert(&mut self.properties, field, value);
    }

    /// The `key=value` lines to write back, one per stored entry, in
    /// stored order.
    pub fn to_lines(&self) -> (r: Vec<String>)
        ensures
            r@.len() == self.entries().len(),
            forall|i: int|
                0 <= i < r@.len() ==> #[trigger] r@[i]@ == self.entries()[i].0@ + "="@
                    + self.entries()[i].1@,
    {
        let mut out: Vec<String> = Vec::new();
        let mut k: usize = 0;
        while k < self.properties.len()
            invariant
                k <= self.properties@.len(),
                out@.len() == k,
                forall|i: int|
                    0 <= i < k ==> #[trigger] out@[i]@ == self.properties@[i].0@ + "="@
                        + self.properties@[i].1@,
            decreases self.properties@.len() - k,
        {
            let mut line = self.properties[k].0.clone();
            line.append("=");
            line.append(self.properties[k].1.as_str());
            out.push(line);
            k = k + 1;
        }
        out
    }
}

} // verus!
