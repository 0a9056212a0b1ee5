//! Mount-table records: parsing of the comma-separated mount-option string
//! into a sequence of key/value options, and lookup by key.

use vstd::prelude::*;
use crate::strutil::{find_char, find_char_str, lemma_find_char, str_eq};

verus! {

/// One mount option: a key, with a value when the option was written
/// `key=value` and none when it was a bare `key`.
pub struct MountOption {
    pub key: String,
    pub value: Option<String>,
}

/// Mathematical model of a `MountOption`.
pub ghost struct OptView {
    pub key: Seq<char>,
    pub value: Option<Seq<char>>,
}

impl View for MountOption {
    type V = OptView;

    open spec fn view(&self) -> OptView {
        OptView {
            key: self.key@,
            value: match self.value {
                Some(ref v) => Some(v@),
                None => None,
            },
        }
    }
}

/// The option a single comma-free token denotes: split at the first `'='` if
/// there is one, else a bare key.
pub open spec fn parse_opt(t: Seq<char>) -> OptView {
    match find_char(t, '=') {
        None => OptView { key: t, value: None },
        Some(i) => OptView { key: t.take(i), value: Some(t.skip(i + 1)) },
    }
}

/// The option sequence a comma-separated option string denotes. The empty
/// string denotes one option with an empty key and no value.
pub open spec fn parse_opts(s: Seq<char>) -> Seq<OptView>
    decreases s.len()
    via parse_opts_dec
{
    match find_char(s, ',') {
        None => seq![parse_opt(s)],
        Some(i) => seq![parse_opt(s.take(i))] + parse_opts(s.skip(i + 1)),
    }
}

#[via_fn]
proof fn parse_opts_dec(s: Seq<char>) {
    lemma_find_char(s, ',');
}

/// The value of the first option whose key is `name` and which carries a
/// value; options written without `=` never match.
pub open spec fn lookup(opts: Seq<OptView>, name: Seq<char>) -> Option<Seq<char>>
    decreases opts.len(),
{
    if opts.len() == 0 {
        None
    } else if opts[0].key == name && opts[0].value is Some {
        opts[0].value
    } else {
        lookup(opts.skip(1), name)
    }
}

/// The models of a sequence of options.
pub open spec fn opts_view(v: Seq<MountOption>) -> Seq<OptView> {
    v.map_values(|o: MountOption| o@)
}

/// Parse one comma-free token into an option.
fn parse_opt_str(t: &str) -> (r: MountOption)
    ensures
        r@ == parse_opt(t@),
{
    let n = t.unicode_len();
    match find_char_str(t, '=') {
        None => MountOption { key: t.to_owned(), value: None },
        Some(i) => {
            proof {
                lemma_find_char(t@, '=');
                assert(t@.subrange(0, i as int) =~= t@.take(i as int));
                assert(t@.subrange(i + 1, n as int) =~= t@.skip(i + 1));
            }
            MountOption {
                key: t.substring_char(0, i).to_owned(),
                value: Some(t.substring_char(i + 1, n).to_owned()),
            }
        },
    }
}

/// Parse a comma-separated option string into its option sequence.
pub fn parse_mntopts(s: &str) -> (r: Vec<MountOption>)
    ensures
        opts_view(r@) == parse_opts(s@),
    decreases s@.len(),
{
    let n = s.unicode_len();
    match find_char_str(s, ',') {
        None => {
            let mut v: Vec<MountOption> = Vec::new();
            v.push(parse_opt_str(s));
            proof {
                assert(opts_view(v@) =~= seq![parse_opt(s@)]);
            }
            v
        },
        Some(i) => {
            proof {
                lemma_find_char(s@, ',');
                assert(s@.subrange(0, i as int) =~= s@.take(i as int));
                assert(s@.subrange(i + 1, n as int) =~= s@.skip(i + 1));
            }
            let head = parse_opt_str(s.substring_char(0, i));
            let mut rest = parse_mntopts(s.substring_char(i + 1, n));
            let mut v: Vec<MountOption> = Vec::new();
            v.push(head);
            v.append(&mut rest);
            proof {
                assert(opts_view(v@) =~= seq![parse_opt(s@.take(i as int))]
                    + parse_opts(s@.skip(i + 1)));
            }
            v
        },
    }
}

/// One row of the mount table.
pub struct MntTabEnt {
    /// The backing device or dataset.
    pub special: String,
    /// The mount point.
    pub mountp: String,
    /// The filesystem type name.
    pub fstype: String,
    /// The mount options, already split into key/value pairs.
    pub mntopts: Vec<MountOption>,
    /// The last-mount timestamp, as the table renders it.
    pub time: String,
    /// Major component of the device number.
    pub major: u32,
    /// Minor component of the device number.
    pub minor: u32,
}

/// Mathematical model of a `MntTabEnt`.
pub ghost struct MntTabEntView {
    pub special: Seq<char>,
    pub mountp: Seq<char>,
    pub fstype: Seq<char>,
    pub mntopts: Seq<OptView>,
    pub time: Seq<char>,
    pub major: u32,
    pub minor: u32,
}

impl View for MntTabEnt {
    type V = MntTabEntView;

    open spec fn view(&self) -> MntTabEntView {
        MntTabEntView {
            special: self.special@,
            mountp: self.mountp@,
            fstype: self.fstype@,
            mntopts: opts_view(self.mntopts@),
            time: self.time@,
            major: self.major,
            minor: self.minor,
        }
    }
}

impl MntTabEnt {
    /// Build a record from the raw fields of one mount-table row, parsing the
    /// comma-separated option string.
    pub fn new(
        special: String,
        mountp: String,
        fstype: String,
        mntopts: &str,
        time: String,
        major: u32,
        minor: u32,
    ) -> (r: MntTabEnt)
        ensures
            r@ == (MntTabEntView {
                special: special@,
                mountp: mountp@,
                fstype: fstype@,
                mntopts: parse_opts(mntopts@),
                time: time@,
                major,
                minor,
            }),
    {
        MntTabEnt {
            special,
            mountp,
            fstype,
            mntopts: parse_mntopts(mntopts),
            time,
            major,
            minor,
        }
    }

    /// The value of the first `name=value` mount option, if any.
    pub fn getopt(&self, name: &str) -> (r: Option<String>)
        ensures
            match r {
                Some(v) => lookup(self@.mntopts, name@) == Some(v@),
                None => lookup(self@.mntopts, name@) is None,
            },
    {
        let n = self.mntopts.len();
        let mut k: usize = 0;
        proof {
            assert(self@.mntopts.skip(0) =~= self@.mntopts);
        }
        while k < n
            invariant
                n == self.mntopts.len(),
                0 <= k <= n,
                lookup(self@.mntopts, name@) == lookup(self@.mntopts.skip(k as int), name@),
            decreases n - k,
        {
            let opt = &self.mntopts[k];
            proof {
                assert(self@.mntopts.skip(k as int)[0] == self@.mntopts[k as int]);
            }
            if str_eq(opt.key.as_str(), name) {
                match &opt.value {
                    Some(v) => {
                        return Some(v.clone());
                    },
                    None => {},
                }
            }
            proof {
                assert(self@.mntopts.skip(k as int).skip(1)
                    =~= self@.mntopts.skip(k as int + 1));
            }
            k += 1;
        }
        None
    }
}

} // verus!
