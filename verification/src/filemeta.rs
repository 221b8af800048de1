//! Per-file metadata carried through the pickup engine: the source path, the
//! resolved suffix and the resolved datetime.
use vstd::prelude::*;

use crate::datetime::{now_utc, FileDateTime};
use crate::numfmt::{dec_str_pad, u64_digits_pad};
use crate::text::{append_chars, chars_to_string, str_chars};

verus! {

/// One file moving through the pickup engine.
#[derive(Debug, Clone)]
pub struct FileMeta {
    pub file_path: String,
    pub suffix: String,
    pub datetime: FileDateTime,
}

impl FileMeta {
    /// A fresh record for the file: no suffix yet, and the clock's instant
    /// as a placeholder datetime.
    pub fn new(file_path: &str) -> (r: Self)
        ensures
            r.file_path@ == file_path@,
            r.suffix@ == Seq::<char>::empty(),
    {
        FileMeta { file_path: file_path.to_owned(), suffix: String::new(), datetime: now_utc() }
    }

    pub fn set_datetime(&mut self, datetime: FileDateTime)
        ensures
            final(self).datetime == datetime,
            final(self).file_path == old(self).file_path,
            final(self).suffix == old(self).suffix,
    {
        self.datetime = datetime;
    }

    pub fn set_suffix(&mut self, suffix: &str)
        ensures
            final(self).suffix@ == suffix@,
            final(self).file_path == old(self).file_path,
            final(self).datetime == old(self).datetime,
    {
        self.suffix = suffix.to_owned();
    }

    /// The destination name: the datetime fields joined by dashes, a
    /// two-digit collision index from the second copy on, and the suffix.
    pub open spec fn spec_get_name(self, index: u16) -> Seq<char> {
        dec_str_pad(self.datetime.year as nat, 4) + seq!['-'] + dec_str_pad(
            self.datetime.month as nat,
            2,
        ) + seq!['-'] + dec_str_pad(self.datetime.day as nat, 2) + seq!['-'] + dec_str_pad(
            self.datetime.hour as nat,
            2,
        ) + seq!['-'] + dec_str_pad(self.datetime.minute as nat, 2) + seq!['-'] + dec_str_pad(
            self.datetime.second as nat,
            2,
        ) + (if index == 0 {
            Seq::<char>::empty()
        } else {
            seq!['_'] + dec_str_pad(index as nat, 2)
        }) + seq!['.'] + self.suffix@
    }

    pub fn get_name(&self, index: u16) -> (r: String)
        ensures
            r@ == self.spec_get_name(index),
    {
        let mut v = u64_digits_pad(self.datetime.year as u64, 4);
        v.push('-');
        let month = u64_digits_pad(self.datetime.month as u64, 2);
        append_chars(&mut v, &month);
        v.push('-');
        let day = u64_digits_pad(self.datetime.day as u64, 2);
        append_chars(&mut v, &day);
        v.push('-');
        let hour = u64_digits_pad(self.datetime.hour as u64, 2);
        append_chars(&mut v, &hour);
        v.push('-');
        let minute = u64_digits_pad(self.datetime.minute as u64, 2);
        append_chars(&mut v, &minute);
        v.push('-');
        let second = u64_digits_pad(self.datetime.second as u64, 2);
        append_chars(&mut v, &second);
        if index > 0 {
            v.push('_');
            let idx = u64_digits_pad(index as u64, 2);
            append_chars(&mut v, &idx);
        }
        v.push('.');
        let suffix = str_chars(self.suffix.as_str());
        append_chars(&mut v, &suffix);
        assert(v@ =~= self.spec_get_name(index));
        chars_to_string(&v)
    }
}

} // verus!
