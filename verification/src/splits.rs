//! The copy-path choice of the split flow: destination names are tried with
//! rising collision indices until one is free or holds the same content.
//! The filesystem probes are the caller's; their outcomes are handed in.
use vstd::prelude::*;

use crate::filemeta::FileMeta;
use crate::numfmt::{dec_str, u64_to_string};
use crate::target::join_parts;
use crate::text::{append_chars, chars_to_string, str_chars};
use crate::PlaceError;

verus! {

/// What the probes saw at one collision index: whether the destination file
/// exists, and whether it holds the source's content.
#[derive(Debug, Clone, Copy, PartialEq, Eq, Structural)]
pub struct CopyProbe {
    pub file_exists: bool,
    pub same_hash: bool,
}

/// The first index below the cap whose destination is free or already
/// holds the same content.
pub open spec fn copy_index(probes: Seq<CopyProbe>, dup_max: int, i: int) -> Option<int>
    decreases dup_max - i,
{
    if i < 0 || i >= dup_max || i >= probes.len() {
        None
    } else if !probes[i].file_exists || probes[i].same_hash {
        Some(i)
    } else {
        copy_index(probes, dup_max, i + 1)
    }
}

/// The destination the split flow copies to: under the output root and the
/// resolved year, the first name whose probe shows it free or unchanged.
/// When the year directory does not exist, the first name is taken
/// directly. Fails when the cap leaves no usable name.
pub fn get_copy_path(
    fmeta: &FileMeta,
    output_dir: &str,
    dup_max: u32,
    dir_exists: bool,
    probes: &Vec<CopyProbe>,
) -> (r: Result<String, PlaceError>)
    requires
        dup_max <= 0xffff,
        probes@.len() >= dup_max,
    ensures
        dup_max == 0 ==> r == Err::<String, PlaceError>(PlaceError::TooManyCollisions),
        dup_max > 0 && !dir_exists ==> (r matches Ok(p) && p@ == join_parts(
            output_dir@,
            seq![dec_str(fmeta.datetime.year as nat), fmeta.spec_get_name(0)],
        )),
        dup_max > 0 && dir_exists ==> match copy_index(probes@, dup_max as int, 0) {
            Some(i) => (r matches Ok(p) && p@ == join_parts(
                output_dir@,
                seq![dec_str(fmeta.datetime.year as nat), fmeta.spec_get_name(i as u16)],
            )),
            None => r == Err::<String, PlaceError>(PlaceError::TooManyCollisions),
        },
{
    let year_s = u64_to_string(fmeta.datetime.year as u64);
    if dup_max == 0 {
        return Err(PlaceError::TooManyCollisions);
    }
    if !dir_exists {
        let name = fmeta.get_name(0);
        let p = join_two(output_dir, year_s.as_str(), name.as_str());
        return Ok(p);
    }
    let mut i: u32 = 0;
    while i < dup_max
        invariant
            i <= dup_max,
            0 < dup_max <= 0xffff,
            dir_exists,
            probes@.len() >= dup_max,
            year_s@ == dec_str(fmeta.datetime.year as nat),
            copy_index(probes@, dup_max as int, 0) == copy_index(
                probes@,
                dup_max as int,
                i as int,
            ),
        decreases dup_max - i,
    {
        let probe = probes[i as usize];
        if !probe.file_exists || probe.same_hash {
            let name = fmeta.get_name(i as u16);
            let p = join_two(output_dir, year_s.as_str(), name.as_str());
            return Ok(p);
        }
        i = i + 1;
    }
    Err(PlaceError::TooManyCollisions)
}

/// The destination the batch flow copies a picked file to: the same choice
/// as the split flow, for the file carried by a pickup.
pub fn get_date_path(
    output_dir: &str,
    pickf: &crate::pick::PickFile,
    dup_max: u32,
    dir_exists: bool,
    probes: &Vec<CopyProbe>,
) -> (r: Result<String, PlaceError>)
    requires
        dup_max <= 0xffff,
        probes@.len() >= dup_max,
    ensures
        dup_max == 0 ==> r == Err::<String, PlaceError>(PlaceError::TooManyCollisions),
        dup_max > 0 && !dir_exists ==> (r matches Ok(p) && p@ == join_parts(
            output_dir@,
            seq![dec_str(pickf.fi.datetime.year as nat), pickf.fi.spec_get_name(0)],
        )),
        dup_max > 0 && dir_exists ==> match copy_index(probes@, dup_max as int, 0) {
            Some(i) => (r matches Ok(p) && p@ == join_parts(
                output_dir@,
                seq![dec_str(pickf.fi.datetime.year as nat), pickf.fi.spec_get_name(i as u16)],
            )),
            None => r == Err::<String, PlaceError>(PlaceError::TooManyCollisions),
        },
{
    get_copy_path(&pickf.fi, output_dir, dup_max, dir_exists, probes)
}

/// Joins the root, the year directory and the file name.
fn join_two(dir: &str, year: &str, name: &str) -> (r: String)
    ensures
        r@ == join_parts(dir@, seq![year@, name@]),
{
    let mut v = str_chars(dir);
    v.push('/');
    let ys = str_chars(year);
    append_chars(&mut v, &ys);
    v.push('/');
    let ns = str_chars(name);
    append_chars(&mut v, &ns);
    proof {
        let parts = seq![year@, name@];
        assert(parts.drop_last() =~= seq![year@]);
        assert(seq![year@].drop_last() =~= Seq::<Seq<char>>::empty());
        assert(join_parts(dir@, Seq::<Seq<char>>::empty()) == dir@);
        assert(join_parts(dir@, seq![year@]) == dir@ + seq!['/'] + year@);
        assert(join_parts(dir@, parts) == join_parts(dir@, seq![year@]) + seq!['/'] + name@);
        assert(v@ =~= join_parts(dir@, parts));
    }
    chars_to_string(&v)
}

} // verus!
