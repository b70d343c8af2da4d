//! The archive extractor: peel container layers (tar, gzip, bzip2, xz, zip)
//! off a byte payload until a raw database payload remains.
//!
//! Each layer is recognized by content sniffing (`crate::format`), unwrapped
//! through the corresponding outside decompressor or archive reader, and the
//! result is re-classified, until the bytes match no known container. Inside
//! a tar or zip archive the database entry is the first one whose name ends
//! in `.mmdb` and does not lie under the `__MACOSX/` metadata prefix.

use vstd::prelude::*;
use crate::format::{Format, spec_sniff, sniff};

verus! {

/// Why extraction failed: an archive held no database entry, or a layer's
/// framing could not be parsed.
#[derive(Clone, Copy, PartialEq, Eq, Debug, Structural)]
pub enum ExtractError {
    NoPayloadFound,
    CorruptContainer,
}

/// The most container layers one payload may be wrapped in; deeper nesting
/// is rejected as corrupt so that unwrapping always terminates.
pub const MAX_LAYERS: usize = 16;

/// What the gzip decompressor returns on given bytes, or `None` where the
/// gzip framing is invalid. A pure function of the bytes.
pub uninterp spec fn gunzip_of(s: Seq<u8>) -> Option<Seq<u8>>;

/// What the bzip2 decompressor returns on given bytes, or `None` where the
/// bzip2 framing is invalid. A pure function of the bytes.
pub uninterp spec fn bunzip_of(s: Seq<u8>) -> Option<Seq<u8>>;

/// What the xz decompressor returns on given bytes, or `None` where the
/// xz framing is invalid. A pure function of the bytes.
pub uninterp spec fn unxz_of(s: Seq<u8>) -> Option<Seq<u8>>;

/// The (name, content) entries of a tar archive, in archive order, or
/// `None` where the tar framing is invalid. A pure function of the bytes.
pub uninterp spec fn tar_entries_of(s: Seq<u8>) -> Option<Seq<(Seq<u8>, Seq<u8>)>>;

/// The (name, content) entries of a zip archive, in central-directory
/// order, or `None` where the zip framing is invalid. A pure function of
/// the bytes.
pub uninterp spec fn zip_entries_of(s: Seq<u8>) -> Option<Seq<(Seq<u8>, Seq<u8>)>>;

/// Relies on flate2::read::GzDecoder: decompressing in-memory bytes is a
/// pure function of those bytes, failing exactly on invalid gzip input.
#[verifier::external_body]
fn gunzip(input: &Vec<u8>) -> (r: Option<Vec<u8>>)
    ensures
        r is Some <==> gunzip_of(input@) is Some,
        r matches Some(v) ==> gunzip_of(input@) == Some(v@),
{
    let mut decoder = flate2::read::GzDecoder::new(input.as_slice());
    let mut out: Vec<u8> = Vec::new();
    match std::io::Read::read_to_end(&mut decoder, &mut out) {
        Ok(_) => Some(out),
        Err(_) => None,
    }
}

/// Relies on bzip2::read::BzDecoder: decompressing in-memory bytes is a
/// pure function of those bytes, failing exactly on invalid bzip2 input.
#[verifier::external_body]
fn bunzip(input: &Vec<u8>) -> (r: Option<Vec<u8>>)
    ensures
        r is Some <==> bunzip_of(input@) is Some,
        r matches Some(v) ==> bunzip_of(input@) == Some(v@),
{
    let mut decoder = bzip2::read::BzDecoder::new(input.as_slice());
    let mut out: Vec<u8> = Vec::new();
    match std::io::Read::read_to_end(&mut decoder, &mut out) {
        Ok(_) => Some(out),
        Err(_) => None,
    }
}

/// Relies on xz2::read::XzDecoder: decompressing in-memory bytes is a
/// pure function of those bytes, failing exactly on invalid xz input.
#[verifier::external_body]
fn unxz(input: &Vec<u8>) -> (r: Option<Vec<u8>>)
    ensures
        r is Some <==> unxz_of(input@) is Some,
        r matches Some(v) ==> unxz_of(input@) == Some(v@),
{
    let mut decoder = xz2::read::XzDecoder::new(input.as_slice());
    let mut out: Vec<u8> = Vec::new();
    match std::io::Read::read_to_end(&mut decoder, &mut out) {
        Ok(_) => Some(out),
        Err(_) => None,
    }
}

/// Relies on tar::Archive: listing the entries of an in-memory tar archive
/// (raw path bytes and content of each) is a pure function of the bytes,
/// failing exactly where the tar framing cannot be read.
#[verifier::external_body]
fn tar_list(input: &Vec<u8>) -> (r: Option<Vec<(Vec<u8>, Vec<u8>)>>)
    ensures
        r is Some <==> tar_entries_of(input@) is Some,
        r matches Some(v) ==> tar_entries_of(input@) == Some(v.deep_view()),
{
    let mut archive = tar::Archive::new(input.as_slice());
    let mut out: Vec<(Vec<u8>, Vec<u8>)> = Vec::new();
    let entries = match archive.entries() { Ok(e) => e, Err(_) => return None };
    for entry in entries {
        let mut entry = match entry { Ok(e) => e, Err(_) => return None };
        let name = entry.path_bytes().to_vec();
        let mut data: Vec<u8> = Vec::new();
        if std::io::Read::read_to_end(&mut entry, &mut data).is_err() { return None }
        out.push((name, data));
    }
    Some(out)
}

/// Relies on zip::ZipArchive: listing the entries of an in-memory zip
/// archive (raw name bytes and decompressed content of each) is a pure
/// function of the bytes, failing exactly where the zip framing cannot be
/// read.
#[verifier::external_body]
fn zip_list(input: &Vec<u8>) -> (r: Option<Vec<(Vec<u8>, Vec<u8>)>>)
    ensures
        r is Some <==> zip_entries_of(input@) is Some,
        r matches Some(v) ==> zip_entries_of(input@) == Some(v.deep_view()),
{
    let cursor = std::io::Cursor::new(input.as_slice());
    let mut archive = match zip::ZipArchive::new(cursor) { Ok(a) => a, Err(_) => return None };
    let mut out: Vec<(Vec<u8>, Vec<u8>)> = Vec::new();
    for i in 0..archive.len() {
        let mut file = match archive.by_index(i) { Ok(f) => f, Err(_) => return None };
        let name = file.name_raw().to_vec();
        let mut data: Vec<u8> = Vec::new();
        if std::io::Read::read_to_end(&mut file, &mut data).is_err() { return None }
        out.push((name, data));
    }
    Some(out)
}

/// Whether an archive entry of this name is selected as the database
/// payload: the name ends in the five bytes of ".mmdb" and does not start
/// with the nine bytes of "__MACOSX/" (metadata entries to be skipped).
pub open spec fn name_matches(name: Seq<u8>) -> bool {
    &&& name.len() >= 5
    &&& name[name.len() - 5] == 0x2eu8  // '.'
    &&& name[name.len() - 4] == 0x6du8  // 'm'
    &&& name[name.len() - 3] == 0x6du8  // 'm'
    &&& name[name.len() - 2] == 0x64u8  // 'd'
    &&& name[name.len() - 1] == 0x62u8  // 'b'
    &&& !{
        &&& name.len() >= 9
        &&& name[0] == 0x5fu8  // '_'
        &&& name[1] == 0x5fu8  // '_'
        &&& name[2] == 0x4du8  // 'M'
        &&& name[3] == 0x41u8  // 'A'
        &&& name[4] == 0x43u8  // 'C'
        &&& name[5] == 0x4fu8  // 'O'
        &&& name[6] == 0x53u8  // 'S'
        &&& name[7] == 0x58u8  // 'X'
        &&& name[8] == 0x2fu8  // '/'
    }
}

/// The content of the first selectable entry, or `None` where no entry is
/// selectable.
pub open spec fn spec_select_payload(entries: Seq<(Seq<u8>, Seq<u8>)>) -> Option<Seq<u8>>
    decreases entries.len(),
{
    if entries.len() == 0 {
        None
    } else if name_matches(entries[0].0) {
        Some(entries[0].1)
    } else {
        spec_select_payload(entries.drop_first())
    }
}

/// Whether this entry name is selected as the database payload.
fn name_selects(name: &Vec<u8>) -> (r: bool)
    ensures
        r == name_matches(name@),
{
    let n = name.len();
    let has_suffix = n >= 5 && name[n - 5] == 0x2e && name[n - 4] == 0x6d && name[n - 3] == 0x6d
        && name[n - 2] == 0x64 && name[n - 1] == 0x62;
    let skipped = n >= 9 && name[0] == 0x5f && name[1] == 0x5f && name[2] == 0x4d
        && name[3] == 0x41 && name[4] == 0x43 && name[5] == 0x4f && name[6] == 0x53
        && name[7] == 0x58 && name[8] == 0x2f;
    has_suffix && !skipped
}

/// Find the position of the first selectable entry in an archive listing.
fn find_payload_index(entries: &Vec<(Vec<u8>, Vec<u8>)>) -> (r: Option<usize>)
    ensures
        r matches Some(i) ==> i < entries@.len() && spec_select_payload(entries.deep_view())
            == Some(entries.deep_view()[i as int].1),
        r is None ==> spec_select_payload(entries.deep_view()) is None,
{
    let ghost all = entries.deep_view();
    let mut i: usize = 0;
    proof {
        assert(all.skip(0) =~= all);
    }
    while i < entries.len()
        invariant
            all == entries.deep_view(),
            entries@.len() == all.len(),
            i <= all.len(),
            spec_select_payload(all) == spec_select_payload(all.skip(i as int)),
        decreases all.len() - i,
    {
        proof {
            assert(all[i as int] == (entries@[i as int].0.deep_view(),
                entries@[i as int].1.deep_view()));
            assert(entries@[i as int].0.deep_view() =~= entries@[i as int].0@);
            assert(all.skip(i as int)[0] == all[i as int]);
        }
        if name_selects(&entries[i].0) {
            proof {
                assert(spec_select_payload(all.skip(i as int)) == Some(all[i as int].1));
            }
            return Some(i);
        }
        proof {
            assert(all.skip(i as int).drop_first() =~= all.skip(i as int + 1));
        }
        i = i + 1;
    }
    proof {
        assert(all.skip(i as int) =~= Seq::<(Seq<u8>, Seq<u8>)>::empty());
    }
    None
}

/// Pick the content of the first selectable entry out of an archive
/// listing.
fn select_payload(entries: Vec<(Vec<u8>, Vec<u8>)>) -> (r: Option<Vec<u8>>)
    ensures
        r is Some <==> spec_select_payload(entries.deep_view()) is Some,
        r matches Some(v) ==> spec_select_payload(entries.deep_view()) == Some(v@),
{
    match find_payload_index(&entries) {
        Some(i) => {
            let ghost entry_at_i = entries@[i as int];
            let ghost all = entries.deep_view();
            let mut es = entries;
            let (_, data) = es.swap_remove(i);
            proof {
                assert(data == entry_at_i.1);
                assert(all[i as int].1 == entry_at_i.1.deep_view());
                assert(entry_at_i.1.deep_view() =~= data@);
                assert(spec_select_payload(all) == Some(data@));
            }
            Some(data)
        },
        None => None,
    }
}

/// The result of unwrapping: what `extract` returns on given bytes with the
/// given number of container layers still allowed. Raw bytes are the
/// payload; a recognized layer is unwrapped through the outside reader for
/// its format and the result classified again; a layer that cannot be
/// parsed is corrupt; an archive without a selectable entry has no payload.
pub open spec fn spec_extract(s: Seq<u8>, fuel: nat) -> Result<Seq<u8>, ExtractError>
    decreases fuel,
{
    if spec_sniff(s) is Raw {
        Ok(s)
    } else if fuel == 0 {
        Err(ExtractError::CorruptContainer)
    } else {
        match spec_sniff(s) {
            Format::Gzip => match gunzip_of(s) {
                Some(t) => spec_extract(t, (fuel - 1) as nat),
                None => Err(ExtractError::CorruptContainer),
            },
            Format::Bzip2 => match bunzip_of(s) {
                Some(t) => spec_extract(t, (fuel - 1) as nat),
                None => Err(ExtractError::CorruptContainer),
            },
            Format::Xz => match unxz_of(s) {
                Some(t) => spec_extract(t, (fuel - 1) as nat),
                None => Err(ExtractError::CorruptContainer),
            },
            Format::Tar => match tar_entries_of(s) {
                Some(es) => match spec_select_payload(es) {
                    Some(t) => spec_extract(t, (fuel - 1) as nat),
                    None => Err(ExtractError::NoPayloadFound),
                },
                None => Err(ExtractError::CorruptContainer),
            },
            Format::Zip => match zip_entries_of(s) {
                Some(es) => match spec_select_payload(es) {
                    Some(t) => spec_extract(t, (fuel - 1) as nat),
                    None => Err(ExtractError::NoPayloadFound),
                },
                None => Err(ExtractError::CorruptContainer),
            },
            Format::Raw => Ok(s),
        }
    }
}

/// Repeatedly detect and peel container layers until a raw payload
/// remains, or fail where a layer is corrupt or an archive holds no
/// database entry.
pub fn extract(input: Vec<u8>) -> (r: Result<Vec<u8>, ExtractError>)
    ensures
        r matches Ok(p) ==> spec_extract(input@, MAX_LAYERS as nat) == Ok::<Seq<u8>,
            ExtractError>(p@),
        r matches Err(e) ==> spec_extract(input@, MAX_LAYERS as nat) == Err::<Seq<u8>,
            ExtractError>(e),
{
    let mut cur = input;
    let mut used: usize = 0;
    loop
        invariant
            used <= MAX_LAYERS,
            spec_extract(input@, MAX_LAYERS as nat) == spec_extract(cur@, (MAX_LAYERS
                - used) as nat),
        decreases MAX_LAYERS - used,
    {
        let format = sniff(&cur);
        if format == Format::Raw {
            return Ok(cur);
        }
        if used == MAX_LAYERS {
            return Err(ExtractError::CorruptContainer);
        }
        match format {
            Format::Gzip => match gunzip(&cur) {
                Some(v) => { cur = v; },
                None => { return Err(ExtractError::CorruptContainer); },
            },
            Format::Bzip2 => match bunzip(&cur) {
                Some(v) => { cur = v; },
                None => { return Err(ExtractError::CorruptContainer); },
            },
            Format::Xz => match unxz(&cur) {
                Some(v) => { cur = v; },
                None => { return Err(ExtractError::CorruptContainer); },
            },
            Format::Tar => match tar_list(&cur) {
                Some(entries) => match select_payload(entries) {
                    Some(v) => { cur = v; },
                    None => { return Err(ExtractError::NoPayloadFound); },
                },
                None => { return Err(ExtractError::CorruptContainer); },
            },
            Format::Zip => match zip_list(&cur) {
                Some(entries) => match select_payload(entries) {
                    Some(v) => { cur = v; },
                    None => { return Err(ExtractError::NoPayloadFound); },
                },
                None => { return Err(ExtractError::CorruptContainer); },
            },
            Format::Raw => { return Ok(cur); },
        }
        used = used + 1;
    }
}

/// One successful peel step: `t` is what unwrapping the recognized layer
/// of `s` yields.
pub open spec fn peel_ok(s: Seq<u8>, t: Seq<u8>) -> bool {
    match spec_sniff(s) {
        Format::Gzip => gunzip_of(s) == Some(t),
        Format::Bzip2 => bunzip_of(s) == Some(t),
        Format::Xz => unxz_of(s) == Some(t),
        Format::Tar => tar_entries_of(s) matches Some(es) && spec_select_payload(es) == Some(t),
        Format::Zip => zip_entries_of(s) matches Some(es) && spec_select_payload(es) == Some(t),
        Format::Raw => false,
    }
}

/// Law: a raw, uncontained payload extracts to itself, byte for byte.
pub proof fn lemma_extract_raw(p: Seq<u8>, fuel: nat)
    requires
        spec_sniff(p) is Raw,
    ensures
        spec_extract(p, fuel) == Ok::<Seq<u8>, ExtractError>(p),
{
}

/// Law: for every supported container format, a raw payload wrapped in one
/// layer of that format extracts back to the original payload, byte for
/// byte.
pub proof fn lemma_extract_round_trip(w: Seq<u8>, p: Seq<u8>, fuel: nat)
    requires
        peel_ok(w, p),
        spec_sniff(p) is Raw,
        fuel >= 1,
    ensures
        spec_extract(w, fuel) == Ok::<Seq<u8>, ExtractError>(p),
{
    assert(!(spec_sniff(w) is Raw));
    assert(spec_extract(p, (fuel - 1) as nat) == Ok::<Seq<u8>, ExtractError>(p));
}

/// An archive (tar or zip) that parses but holds no selectable entry.
pub open spec fn archive_without_payload(s: Seq<u8>) -> bool {
    ||| {
        &&& spec_sniff(s) is Tar
        &&& tar_entries_of(s) matches Some(es) && spec_select_payload(es) is None
    }
    ||| {
        &&& spec_sniff(s) is Zip
        &&& zip_entries_of(s) matches Some(es) && spec_select_payload(es) is None
    }
}

/// Law: a tar or zip archive whose listing holds no selectable entry
/// extracts to `NoPayloadFound`.
pub proof fn lemma_extract_no_payload(s: Seq<u8>, fuel: nat)
    requires
        fuel >= 1,
        archive_without_payload(s),
    ensures
        spec_extract(s, fuel) == Err::<Seq<u8>, ExtractError>(ExtractError::NoPayloadFound),
{
}

/// Law: an archive containing only entries whose names are not selectable
/// (no ".mmdb" suffix, or under "__MACOSX/") has no payload to select.
pub proof fn lemma_select_none(entries: Seq<(Seq<u8>, Seq<u8>)>)
    requires
        forall|i: int| 0 <= i < entries.len() ==> !name_matches(#[trigger] entries[i].0),
    ensures
        spec_select_payload(entries) is None,
    decreases entries.len(),
{
    if entries.len() > 0 {
        assert(!name_matches(entries[0].0));
        assert(forall|i: int| 0 <= i < entries.drop_first().len()
            ==> entries.drop_first()[i] == entries[i + 1]);
        lemma_select_none(entries.drop_first());
    }
}

} // verus!
