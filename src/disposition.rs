//! The file name that a `Content-Disposition` header proposes.
use vstd::prelude::*;
use vstd::utf8::{decode_utf8, encode_utf8, valid_utf8};

verus! {

/// The value of an ASCII hexadecimal digit.
pub open spec fn hex_value(b: u8) -> Option<u8> {
    if 0x30 <= b <= 0x39 {
        Some((b - 0x30) as u8)
    } else if 0x41 <= b <= 0x46 {
        Some((b - 0x37) as u8)
    } else if 0x61 <= b <= 0x66 {
        Some((b - 0x57) as u8)
    } else {
        None
    }
}

/// Percent-decoding: each `%` followed by two hexadecimal digits stands
/// for the byte they spell; every other byte stands for itself.
pub open spec fn percent_decoded(b: Seq<u8>) -> Seq<u8>
    decreases b.len(),
{
    if b.len() == 0 {
        Seq::empty()
    } else if b.len() >= 3 && b[0] == 0x25 && hex_value(b[1]) is Some && hex_value(b[2]) is Some {
        seq![(hex_value(b[1])->0 * 16 + hex_value(b[2])->0) as u8] + percent_decoded(b.skip(3))
    } else {
        seq![b[0]] + percent_decoded(b.skip(1))
    }
}

/// The text that `s` percent-decodes to, if those bytes are UTF-8.
pub open spec fn decoded_text(s: Seq<char>) -> Option<Seq<char>> {
    let b = percent_decoded(encode_utf8(s));
    if valid_utf8(b) {
        Some(decode_utf8(b))
    } else {
        None
    }
}

/// Relies on percent_encoding's `percent_decode_str` followed by
/// `PercentDecode::decode_utf8`: the percent-decoded bytes, read as UTF-8,
/// and an error where they are not UTF-8.
#[verifier::external_body]
fn percent_decode_text(s: &str) -> (r: Option<String>)
    ensures
        r is Some <==> decoded_text(s@) is Some,
        r matches Some(t) ==> decoded_text(s@) == Some(t@),
{
    percent_encoding::percent_decode_str(s).decode_utf8().ok().map(|c| c.into_owned())
}

/// Relies on std's `str::from_utf8`: the text that the bytes encode, and
/// an error where they are not UTF-8.
#[verifier::external_body]
pub(crate) fn utf8_text(b: &[u8]) -> (r: Option<String>)
    ensures
        r is Some <==> valid_utf8(b@),
        r matches Some(t) ==> t@ == decode_utf8(b@),
{
    std::str::from_utf8(b).ok().map(|s| s.to_string())
}

/// The disposition type of a header, as a value of the specification.
pub enum DispositionKindView {
    Inline,
    Attachment,
    FormData,
    /// Any other type, lower-cased.
    Extension(Seq<char>),
}

/// The disposition type of a header.
#[derive(Debug, Clone)]
pub enum DispositionKind {
    Inline,
    Attachment,
    FormData,
    /// Any other type, lower-cased.
    Extension(String),
}

impl View for DispositionKind {
    type V = DispositionKindView;

    open spec fn view(&self) -> DispositionKindView {
        match self {
            DispositionKind::Inline => DispositionKindView::Inline,
            DispositionKind::Attachment => DispositionKindView::Attachment,
            DispositionKind::FormData => DispositionKindView::FormData,
            DispositionKind::Extension(s) => DispositionKindView::Extension(s@),
        }
    }
}

/// A header's parameters as the specification sees them: pairs of key and value.
pub open spec fn params_view(ps: Seq<(String, String)>) -> Seq<(Seq<char>, Seq<char>)> {
    ps.map_values(|p: (String, String)| (p.0@, p.1@))
}

/// What the parse of a `Content-Disposition` header holds: its disposition
/// type and its parameters, in the order of their keys.
pub uninterp spec fn parsed_disposition(header: Seq<char>) -> (
    DispositionKindView,
    Seq<(Seq<char>, Seq<char>)>,
);

/// A parsed `Content-Disposition` header.
#[derive(Debug, Clone)]
pub struct Disposition {
    pub kind: DispositionKind,
    /// The parameters: keys lower-cased, values without their quotes. The
    /// parser decodes a lone extended parameter (`filename*`) of a known
    /// charset itself and files it under its plain key (`filename`); an
    /// extended parameter stays, still encoded, only beside its plain one or
    /// when its charset is unknown.
    pub params: Vec<(String, String)>,
}

pub open spec fn opt_text(o: Option<String>) -> Option<Seq<char>> {
    match o {
        Some(s) => Some(s@),
        None => None,
    }
}

impl Disposition {
    pub open spec fn view(self) -> (DispositionKindView, Seq<(Seq<char>, Seq<char>)>) {
        (self.kind@, params_view(self.params@))
    }
}

/// Relies on mailparse's `parse_content_disposition`: the disposition type
/// and the parameters of the header (keys lower-cased, a lone extended
/// parameter decoded under its plain key), handed over in the key order of
/// the parser's map.
#[verifier::external_body]
fn parse_disposition(header: &str) -> (r: Disposition)
    ensures
        r.view() == parsed_disposition(header@),
{
    let p = mailparse::parse_content_disposition(header);
    let kind = match p.disposition {
        mailparse::DispositionType::Inline => DispositionKind::Inline,
        mailparse::DispositionType::Attachment => DispositionKind::Attachment,
        mailparse::DispositionType::FormData => DispositionKind::FormData,
        mailparse::DispositionType::Extension(s) => DispositionKind::Extension(s),
    };
    Disposition { kind, params: p.params.into_iter().collect() }
}

/// The value of the first parameter whose key is `key`.
pub open spec fn param_value(ps: Seq<(Seq<char>, Seq<char>)>, key: Seq<char>) -> Option<Seq<char>>
    decreases ps.len(),
{
    if ps.len() == 0 {
        None
    } else if ps[0].0 == key {
        Some(ps[0].1)
    } else {
        param_value(ps.skip(1), key)
    }
}

/// The value of the first parameter whose key is `key`, as `param_value` states.
pub fn find_param(params: &Vec<(String, String)>, key: &String) -> (r: Option<String>)
    ensures
        opt_text(r) == param_value(params_view(params@), key@),
{
    let ghost pv = params_view(params@);
    let mut i: usize = 0;
    assert(pv.skip(0) == pv);
    while i < params.len()
        invariant
            i <= params@.len(),
            pv == params_view(params@),
            pv.len() == params@.len(),
            param_value(pv, key@) == param_value(pv.skip(i as int), key@),
        decreases params@.len() - i,
    {
        assert(pv.skip(i as int)[0] == pv[i as int]);
        assert(pv.skip(i as int).skip(1) == pv.skip(i + 1));
        if params[i].0.eq(key) {
            return Some(params[i].1.clone());
        }
        i = i + 1;
    }
    None
}

/// Why a header gave no file name.
#[derive(Debug, Clone, Copy, PartialEq, Eq, Structural)]
pub enum FilenameError {
    /// The disposition is not `attachment`.
    NotAttachment,
    /// No parameter gave a name that decodes.
    NoFilename,
}

/// `UTF-8''`, the charset prefix of an extended parameter.
pub open spec fn utf8_prefix() -> Seq<char> {
    seq!['U', 'T', 'F', '-', '8', '\'', '\'']
}

/// `s` without the prefix `UTF-8''`, if it has that prefix.
pub open spec fn strip_utf8_prefix(s: Seq<char>) -> Option<Seq<char>> {
    if s.len() >= 7 && s.take(7) == utf8_prefix() {
        Some(s.skip(7))
    } else {
        None
    }
}

/// The name that the extended parameter gives.
pub open spec fn name_from_ext(ext: Option<Seq<char>>) -> Option<Seq<char>> {
    match ext {
        Some(e) => match strip_utf8_prefix(e) {
            Some(v) => decoded_text(v),
            None => None,
        },
        None => None,
    }
}

/// The name that the plain parameter gives.
pub open spec fn name_from_plain(f: Option<Seq<char>>) -> Option<Seq<char>> {
    match f {
        Some(v) => decoded_text(v),
        None => None,
    }
}

/// The file name of a parsed header: only an attachment has one; the
/// extended parameter `filename*`, once decoded, comes first, then the
/// plain `filename`.
pub open spec fn spec_filename_of(d: (DispositionKindView, Seq<(Seq<char>, Seq<char>)>)) -> Result<
    Seq<char>,
    FilenameError,
> {
    let ext = name_from_ext(param_value(d.1, "filename*"@));
    let plain = name_from_plain(param_value(d.1, "filename"@));
    if !(d.0 is Attachment) {
        Err(FilenameError::NotAttachment)
    } else if ext is Some {
        Ok(ext->0)
    } else if plain is Some {
        Ok(plain->0)
    } else {
        Err(FilenameError::NoFilename)
    }
}

/// `s` without the prefix `UTF-8''`, if it has it.
fn strip_charset(s: &str) -> (r: Option<&str>)
    ensures
        r is Some <==> strip_utf8_prefix(s@) is Some,
        r matches Some(v) ==> strip_utf8_prefix(s@) == Some(v@),
{
    let n = s.unicode_len();
    if n < 7 {
        return None;
    }
    let p = ['U', 'T', 'F', '-', '8', '\'', '\''];
    let mut i: usize = 0;
    while i < 7
        invariant
            n == s@.len(),
            n >= 7,
            i <= 7,
            p@ == utf8_prefix(),
            forall|j: int| 0 <= j < i ==> s@[j] == utf8_prefix()[j],
        decreases 7 - i,
    {
        if s.get_char(i) != p[i] {
            proof {
                assert(s@.take(7)[i as int] != utf8_prefix()[i as int]);
            }
            return None;
        }
        i = i + 1;
    }
    assert(s@.take(7) == utf8_prefix());
    Some(s.substring_char(7, n))
}

fn name_from_ext_param(ext: &Option<String>) -> (r: Option<String>)
    ensures
        opt_text(r) == name_from_ext(opt_text(*ext)),
{
    match ext {
        Some(e) => match strip_charset(e.as_str()) {
            Some(v) => percent_decode_text(v),
            None => None,
        },
        None => None,
    }
}

fn name_from_plain_param(f: &Option<String>) -> (r: Option<String>)
    ensures
        opt_text(r) == name_from_plain(opt_text(*f)),
{
    match f {
        Some(v) => percent_decode_text(v.as_str()),
        None => None,
    }
}

/// The file name that a parsed header gives.
pub fn filename_from_parts(d: &Disposition) -> (r: Result<String, FilenameError>)
    ensures
        r matches Ok(n) ==> spec_filename_of(d.view()) == Ok::<Seq<char>, FilenameError>(n@),
        r matches Err(e) ==> spec_filename_of(d.view()) == Err::<Seq<char>, FilenameError>(e),
{
    if !matches!(d.kind, DispositionKind::Attachment) {
        return Err(FilenameError::NotAttachment);
    }
    let ext_key = String::from_str("filename*");
    let plain_key = String::from_str("filename");
    match name_from_ext_param(&find_param(&d.params, &ext_key)) {
        Some(n) => Ok(n),
        None => match name_from_plain_param(&find_param(&d.params, &plain_key)) {
            Some(n) => Ok(n),
            None => Err(FilenameError::NoFilename),
        },
    }
}

/// The file name that a `Content-Disposition` header gives.
pub fn filename_from_disposition(cd: &str) -> (r: Result<String, FilenameError>)
    ensures
        r matches Ok(n) ==> spec_filename_of(parsed_disposition(cd@)) == Ok::<
            Seq<char>,
            FilenameError,
        >(n@),
        r matches Err(e) ==> spec_filename_of(parsed_disposition(cd@)) == Err::<
            Seq<char>,
            FilenameError,
        >(e),
{
    let d = parse_disposition(cd);
    filename_from_parts(&d)
}

} // verus!
