//! The persisted per-instance restore record, as `key=value` lines.
//!
//! The runtime stores one line per field next to the instance's files and
//! reads them back on restart. Writing and reading are exact inverses:
//! the round-trip law at the end says a record read back is the record
//! that was written, field for field. The runtime joins the lines with
//! newlines on disk, so the name and description must stay newline-free
//! there; the registry's sanitized names always are.

use vstd::prelude::*;
use vstd::string::StrSliceExecFns;

use crate::config::RestoreConfig;
use crate::configurable::bool_name;
use crate::text::{lit_match_at, parse_u32, parse_u32_spec, str_eq, u32_to_string};

verus! {

/// The line starts with this tag.
pub open spec fn line_tagged(line: Seq<char>, tag: Seq<char>) -> bool {
    line.len() >= tag.len() && line.subrange(0, tag.len() as int) == tag
}

/// The text after the tag.
pub open spec fn tag_value(line: Seq<char>, tag: Seq<char>) -> Seq<char> {
    line.subrange(tag.len() as int, line.len() as int)
}

/// These lines are the written form of this record.
pub open spec fn record_encodes(lines: Seq<String>, c: &RestoreConfig) -> bool {
    &&& lines.len() == 8
    &&& line_tagged(lines[0]@, "name="@) && tag_value(lines[0]@, "name="@) == c.name@
    &&& line_tagged(lines[1]@, "version="@) && tag_value(lines[1]@, "version="@) == c.version@
    &&& line_tagged(lines[2]@, "description="@) && tag_value(lines[2]@, "description="@)
        == c.description@
    &&& line_tagged(lines[3]@, "port="@) && parse_u32_spec(tag_value(lines[3]@, "port="@))
        == Some(c.port)
    &&& line_tagged(lines[4]@, "auto_start="@) && tag_value(lines[4]@, "auto_start="@)
        == bool_name(c.auto_start)
    &&& line_tagged(lines[5]@, "restart_on_crash="@) && tag_value(
        lines[5]@,
        "restart_on_crash="@,
    ) == bool_name(c.restart_on_crash)
    &&& line_tagged(lines[6]@, "backup_period="@) && (match c.backup_period {
        Some(n) => parse_u32_spec(tag_value(lines[6]@, "backup_period="@)) == Some(n),
        None => tag_value(lines[6]@, "backup_period="@) == "none"@,
    })
    &&& line_tagged(lines[7]@, "has_started="@) && tag_value(lines[7]@, "has_started="@)
        == bool_name(c.has_started)
}

fn tagged_line(tag: &str, value: &str) -> (r: String)
    ensures
        line_tagged(r@, tag@),
        tag_value(r@, tag@) == value@,
{
    let mut l = tag.to_owned();
    l.append(value);
    proof {
        assert(l@.subrange(0, tag@.len() as int) =~= tag@);
        assert(tag_value(l@, tag@) =~= value@);
    }
    l
}

/// Write the record as its eight lines.
pub fn write_restore_record(c: &RestoreConfig) -> (r: Vec<String>)
    ensures
        record_encodes(r@, c),
{
    let mut out: Vec<String> = Vec::new();
    out.push(tagged_line("name=", c.name.as_str()));
    out.push(tagged_line("version=", c.version.as_str()));
    out.push(tagged_line("description=", c.description.as_str()));
    let port = u32_to_string(c.port);
    out.push(tagged_line("port=", port.as_str()));
    out.push(tagged_line("auto_start=", if c.auto_start { "true" } else { "false" }));
    out.push(
        tagged_line("restart_on_crash=", if c.restart_on_crash { "true" } else { "false" }),
    );
    match c.backup_period {
        Some(n) => {
            let d = u32_to_string(n);
            out.push(tagged_line("backup_period=", d.as_str()));
        },
        None => {
            out.push(tagged_line("backup_period=", "none"));
        },
    }
    out.push(tagged_line("has_started=", if c.has_started { "true" } else { "false" }));
    out
}

fn read_tagged<'a>(line: &'a str, tag: &str) -> (r: Option<String>)
    ensures
        match r {
            Some(v) => line_tagged(line@, tag@) && v@ == tag_value(line@, tag@),
            None => !line_tagged(line@, tag@),
        },
{
    let slen = line.unicode_len();
    let tlen = tag.unicode_len();
    if !lit_match_at(line, tag, 0) {
        proof {
            if line_tagged(line@, tag@) {
                assert(forall|k: int|
                    0 <= k < tag@.len() ==> line@.subrange(0, tag@.len() as int)[k] == line@[k]);
            }
        }
        return None;
    }
    proof {
        assert(line@.subrange(0, tag@.len() as int) =~= tag@);
    }
    Some(line.substring_char(tlen, slen).to_owned())
}

/// Read a record back from its lines: the written form of exactly one
/// record, or nothing when the lines are not a written record at all.
pub fn read_restore_record(lines: &Vec<String>) -> (r: Option<RestoreConfig>)
    ensures
        match r {
            Some(c) => record_encodes(lines@, &c),
            None => forall|c: RestoreConfig| !record_encodes(lines@, &c),
        },
{
    if lines.len() != 8 {
        return None;
    }
    let name = match read_tagged(lines[0].as_str(), "name=") {
        Some(v) => v,
        None => {
            return None;
        },
    };
    let version = match read_tagged(lines[1].as_str(), "version=") {
        Some(v) => v,
        None => {
            return None;
        },
    };
    let description = match read_tagged(lines[2].as_str(), "description=") {
        Some(v) => v,
        None => {
            return None;
        },
    };
    let port_text = match read_tagged(lines[3].as_str(), "port=") {
        Some(v) => v,
        None => {
            return None;
        },
    };
    let port = match parse_u32(port_text.as_str()) {
        Some(n) => n,
        None => {
            return None;
        },
    };
    let auto_text = match read_tagged(lines[4].as_str(), "auto_start=") {
        Some(v) => v,
        None => {
            return None;
        },
    };
    let auto_start = if str_eq(auto_text.as_str(), "true") {
        true
    } else if str_eq(auto_text.as_str(), "false") {
        false
    } else {
        proof {
            lemma_true_false_distinct();
        }
        return None;
    };
    let crash_text = match read_tagged(lines[5].as_str(), "restart_on_crash=") {
        Some(v) => v,
        None => {
            return None;
        },
    };
    let restart_on_crash = if str_eq(crash_text.as_str(), "true") {
        true
    } else if str_eq(crash_text.as_str(), "false") {
        false
    } else {
        proof {
            lemma_true_false_distinct();
        }
        return None;
    };
    let backup_text = match read_tagged(lines[6].as_str(), "backup_period=") {
        Some(v) => v,
        None => {
            return None;
        },
    };
    let backup_period = if str_eq(backup_text.as_str(), "none") {
        None
    } else {
        match parse_u32(backup_text.as_str()) {
            Some(n) => Some(n),
            None => {
                return None;
            },
        }
    };
    let started_text = match read_tagged(lines[7].as_str(), "has_started=") {
        Some(v) => v,
        None => {
            return None;
        },
    };
    let has_started = if str_eq(started_text.as_str(), "true") {
        true
    } else if str_eq(started_text.as_str(), "false") {
        false
    } else {
        proof {
            lemma_true_false_distinct();
        }
        return None;
    };
    Some(
        RestoreConfig {
            name,
            version,
            description,
            port,
            auto_start,
            restart_on_crash,
            backup_period,
            has_started,
        },
    )
}

proof fn lemma_true_false_distinct()
    ensures
        "true"@ != "false"@,
        forall|b: bool| bool_name(b) == "true"@ || bool_name(b) == "false"@,
{
    broadcast use vstd::string::group_string_axioms;

    reveal_strlit("true");
    reveal_strlit("false");
    assert("true"@.len() == 4);
    assert("false"@.len() == 5);
}

/// A written record reads back as itself: any two records with the same
/// written lines agree on every field, so `read_restore_record` after
/// `write_restore_record` yields the record that was written (its string
/// fields character for character).
pub proof fn lemma_record_roundtrip(lines: Seq<String>, c1: &RestoreConfig, c2: &RestoreConfig)
    requires
        record_encodes(lines, c1),
        record_encodes(lines, c2),
    ensures
        c1.name@ == c2.name@,
        c1.version@ == c2.version@,
        c1.description@ == c2.description@,
        c1.port == c2.port,
        c1.auto_start == c2.auto_start,
        c1.restart_on_crash == c2.restart_on_crash,
        c1.backup_period == c2.backup_period,
        c1.has_started == c2.has_started,
{
    lemma_true_false_distinct();
    broadcast use vstd::string::group_string_axioms;

    reveal_strlit("none");
    assert(bool_name(c1.auto_start) == bool_name(c2.auto_start));
    assert(bool_name(c1.restart_on_crash) == bool_name(c2.restart_on_crash));
    assert(bool_name(c1.has_started) == bool_name(c2.has_started));
    match (c1.backup_period, c2.backup_period) {
        (Some(n1), Some(n2)) => {
            assert(n1 == n2);
        },
        (Some(n1), None) => {
            let v = tag_value(lines[6]@, "backup_period="@);
            assert(v == "none"@);
            assert(v[0] == 'n');
            assert(!crate::text::is_digit_char(v[0]));
            assert(parse_u32_spec(v) is None);
            assert(false);
        },
        (None, Some(n2)) => {
            let v = tag_value(lines[6]@, "backup_period="@);
            assert(v == "none"@);
            assert(v[0] == 'n');
            assert(!crate::text::is_digit_char(v[0]));
            assert(parse_u32_spec(v) is None);
            assert(false);
        },
        (None, None) => {},
    }
}

} // verus!
