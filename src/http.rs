//! One download request: its configuration, how it names its destination,
//! and what it does about a file that is already there.
use vstd::prelude::*;
use vstd::utf8::{decode_utf8, encode_utf8, valid_utf8};
use crate::disposition::{filename_from_disposition, parsed_disposition, spec_filename_of, utf8_text, FilenameError};
use crate::path::{join, spec_join};

verus! {

/// What a finished download did.
#[derive(Debug, Clone, Copy, PartialEq, Eq, Structural)]
pub enum Outcome {
    /// A new file of this many bytes was written.
    Download(u64),
    /// An existing file was replaced by one of this many bytes.
    Redownload(u64),
    /// The destination was left as it was.
    Existing,
}

/// What to do when the destination already exists.
#[derive(Debug, Clone, Copy, PartialEq, Eq, Structural)]
pub enum OverwriteBehaviour {
    Always,
    CheckLength,
    Never,
    Fail,
}

impl OverwriteBehaviour {
    /// Whether the decision depends on the remote length.
    pub open spec fn spec_conditional(self) -> bool {
        self is CheckLength
    }

    #[inline]
    pub fn conditional(&self) -> (r: bool)
        ensures
            r == self.spec_conditional(),
    {
        matches!(self, OverwriteBehaviour::CheckLength)
    }
}

impl Default for OverwriteBehaviour {
    fn default() -> (r: Self)
        ensures
            r == OverwriteBehaviour::Never,
    {
        OverwriteBehaviour::Never
    }
}

/// Whether a source of the file name is used, and whether it must be there.
#[derive(Debug, Clone, Copy, PartialEq, Eq, Structural)]
pub enum UsagePref {
    /// Use it; its absence is an error.
    Require,
    /// Use it if it is there.
    Prefer,
    Reject,
}

impl UsagePref {
    pub open spec fn spec_bool(self) -> bool {
        self is Require || self is Prefer
    }

    pub open spec fn spec_strict(self) -> bool {
        self is Require
    }

    /// Whether this source is consulted at all.
    #[inline]
    pub fn bool(&self) -> (r: bool)
        ensures
            r == self.spec_bool(),
    {
        matches!(self, UsagePref::Require | UsagePref::Prefer)
    }

    /// Whether this source is mandatory.
    #[inline]
    pub fn strict(&self) -> (r: bool)
        ensures
            r == self.spec_strict(),
    {
        matches!(self, UsagePref::Require)
    }
}

impl Default for UsagePref {
    fn default() -> (r: Self)
        ensures
            r == UsagePref::Reject,
    {
        UsagePref::Reject
    }
}

/// Why one download stopped.
#[derive(Debug, Clone, Copy, PartialEq, Eq, Structural)]
pub enum DownloadError {
    /// The server answered with a status outside 2xx, to the preflight
    /// request or to the main one.
    Status { preflight: bool, status: u16 },
    /// The response has no `Content-Length`.
    MissingContentLength,
    /// The `Content-Length` is not a decimal number that fits in 64 bits.
    InvalidContentLength,
    /// The `Content-Disposition` header is not UTF-8.
    DispositionNotUtf8,
    /// The `Content-Disposition` header gives no file name.
    Disposition(FilenameError),
    /// The `Content-Disposition` header is required and absent.
    MissingDisposition,
    /// A name from the final URL was asked for; that source is not supported.
    FinalUrlUnsupported,
    /// The destination exists and is not a regular file.
    NotARegularFile,
    /// The destination exists and the policy is to fail.
    AlreadyExists,
}

/// The request that is sent first.
#[derive(Debug, Clone, Copy, PartialEq, Eq, Structural)]
pub enum RequestKind {
    Head,
    Get,
}

/// What the file system says of the destination path.
#[derive(Debug, Clone, Copy, PartialEq, Eq, Structural)]
pub enum Destination {
    Missing,
    /// A regular file of this many bytes.
    File(u64),
    /// Something that is not a regular file.
    Other,
}

/// What is left to do once the destination is known.
#[derive(Debug, Clone, Copy, PartialEq, Eq, Structural)]
pub enum Plan {
    /// Leave the destination as it is; no body is fetched.
    Existing,
    /// Fetch the body and write it to the destination.
    Fetch {
        outcome: Outcome,
        /// A GET must be sent: the response at hand answered a HEAD.
        new_request: bool,
        /// The destination's directory may have to be created.
        create_parent: bool,
    },
}

/// One download: where from, where to, and how the destination is named
/// and treated when it exists.
#[derive(Debug, Clone)]
pub struct FileDownload {
    pub title: Option<String>,
    pub url: String,
    /// The directory the file name is joined to; where no name is found,
    /// the path of the file itself. Bytes of a Unix path.
    pub target: Vec<u8>,
    /// Send a HEAD first where the response's headers decide something.
    pub preflight_head: bool,
    pub overwrite: OverwriteBehaviour,
    pub filename_use_content_disposition: UsagePref,
    pub filename_use_final_url: UsagePref,
    /// The name used where no header gives one.
    pub filename: Option<String>,
}

/// The decimal value of a string of ASCII digits.
pub open spec fn digits_value(s: Seq<u8>) -> nat
    decreases s.len(),
{
    if s.len() == 0 {
        0
    } else {
        digits_value(s.drop_last()) * 10 + (s.last() - 0x30) as nat
    }
}

pub open spec fn all_digits(s: Seq<u8>) -> bool {
    forall|i: int| 0 <= i < s.len() ==> 0x30 <= #[trigger] s[i] <= 0x39
}

/// The unsigned integer that `s` spells: an optional `+`, then one or more
/// decimal digits, of a value below 2^64.
pub open spec fn spec_parse_u64(s: Seq<u8>) -> Option<u64> {
    let d = if s.len() > 0 && s[0] == 0x2b {
        s.skip(1)
    } else {
        s
    };
    if d.len() > 0 && all_digits(d) && digits_value(d) <= u64::MAX {
        Some(digits_value(d) as u64)
    } else {
        None
    }
}

proof fn lemma_digits_value_grows(d: Seq<u8>, i: int)
    requires
        0 <= i <= d.len(),
        all_digits(d),
    ensures
        digits_value(d.take(i)) <= digits_value(d),
    decreases d.len() - i,
{
    if i < d.len() {
        lemma_digits_value_grows(d, i + 1);
        assert(d.take(i + 1).drop_last() == d.take(i));
    } else {
        assert(d.take(i) == d);
    }
}

/// The unsigned integer that the bytes spell, as `spec_parse_u64` states.
pub fn parse_u64(s: &[u8]) -> (r: Option<u64>)
    ensures
        r == spec_parse_u64(s@),
{
    let start: usize = if s.len() > 0 && s[0] == 0x2b {
        1
    } else {
        0
    };
    let ghost d = if s@.len() > 0 && s@[0] == 0x2b {
        s@.skip(1)
    } else {
        s@
    };
    assert(d == s@.skip(start as int));
    if start == s.len() {
        return None;
    }
    let mut acc: u64 = 0;
    let mut i: usize = start;
    while i < s.len()
        invariant
            start <= i <= s@.len(),
            d == s@.skip(start as int),
            d == (if s@.len() > 0 && s@[0] == 0x2b {
                s@.skip(1)
            } else {
                s@
            }),
            all_digits(d.take(i - start)),
            acc as nat == digits_value(d.take(i - start)),
        decreases s@.len() - i,
    {
        let b = s[i];
        if b < 0x30 || b > 0x39 {
            assert(d[i - start] == b);
            assert(!all_digits(d));
            return None;
        }
        let ghost k = (i - start) as int;
        assert(d.take(k + 1).drop_last() == d.take(k));
        assert(d.take(k + 1).last() == b);
        let dig = (b - 0x30) as u64;
        match acc.checked_mul(10) {
            None => {
                proof {
                    assert(digits_value(d.take(k + 1)) == acc * 10 + dig);
                    lemma_overflow_stays(d, k + 1, s@);
                }
                return None;
            },
            Some(m) => match m.checked_add(dig) {
                None => {
                    proof {
                        lemma_overflow_stays(d, k + 1, s@);
                    }
                    return None;
                },
                Some(v) => {
                    acc = v;
                },
            },
        }
        i = i + 1;
        assert(all_digits(d.take(k + 1))) by {
            assert forall|j: int| 0 <= j < k + 1 implies 0x30 <= #[trigger] d.take(k + 1)[j] <= 0x39 by {
                if j < k {
                    assert(d.take(k + 1)[j] == d.take(k)[j]);
                }
            }
        }
    }
    assert(d.take(i - start) == d);
    Some(acc)
}

/// Once a prefix of digits spells a value beyond `u64`, the whole string is
/// no `u64`.
proof fn lemma_overflow_stays(d: Seq<u8>, k: int, s: Seq<u8>)
    requires
        0 < k <= d.len(),
        digits_value(d.take(k)) > u64::MAX,
    ensures
        spec_parse_u64(s) is None || d != (if s.len() > 0 && s[0] == 0x2b {
            s.skip(1)
        } else {
            s
        }),
{
    if all_digits(d) {
        lemma_digits_value_grows(d, k);
    }
}

impl FileDownload {
    pub open spec fn spec_expect_filename(&self) -> bool {
        self.filename_use_content_disposition.spec_bool() || self.filename_use_final_url.spec_bool()
    }

    pub open spec fn spec_should_preflight(&self) -> bool {
        self.preflight_head && (self.spec_expect_filename() || self.overwrite.spec_conditional())
    }

    /// A builder with every optional field at its default.
    pub fn builder() -> (r: FileDownloadBuilder)
        ensures
            r == FileDownloadBuilder::spec_default(),
    {
        FileDownloadBuilder::new()
    }

    /// Whether some source of the name is read from the response.
    #[inline]
    pub fn expect_filename(&self) -> (r: bool)
        ensures
            r == self.spec_expect_filename(),
    {
        self.filename_use_content_disposition.bool() || self.filename_use_final_url.bool()
    }

    /// Whether a HEAD goes first: only where asked for and where the
    /// response's headers decide the name or the overwrite.
    #[inline]
    pub fn should_preflight(&self) -> (r: bool)
        ensures
            r == self.spec_should_preflight(),
    {
        self.preflight_head && (self.expect_filename() || self.overwrite.conditional())
    }

    /// The request sent first.
    pub fn first_request(&self) -> (r: RequestKind)
        ensures
            r == (if self.spec_should_preflight() {
                RequestKind::Head
            } else {
                RequestKind::Get
            }),
    {
        if self.should_preflight() {
            RequestKind::Head
        } else {
            RequestKind::Get
        }
    }

    /// The name without a response header: the configured one, unless the
    /// final URL is asked for.
    pub open spec fn spec_fallback_filename(&self) -> Result<Option<Seq<char>>, DownloadError> {
        if self.filename_use_final_url.spec_bool() {
            Err(DownloadError::FinalUrlUnsupported)
        } else {
            match self.filename {
                Some(f) => Ok(Some(f@)),
                None => Ok(None),
            }
        }
    }

    /// The file name of the download, given the raw `Content-Disposition`
    /// header of the response. A name from the header comes first; `None`
    /// means that the target is the file's own path.
    pub open spec fn spec_filename(&self, header: Option<Seq<u8>>) -> Result<
        Option<Seq<char>>,
        DownloadError,
    > {
        if self.filename_use_content_disposition.spec_bool() {
            match header {
                Some(h) => if !valid_utf8(h) {
                    Err(DownloadError::DispositionNotUtf8)
                } else {
                    match spec_filename_of(parsed_disposition(decode_utf8(h))) {
                        Ok(n) => Ok(Some(n)),
                        Err(e) => Err(DownloadError::Disposition(e)),
                    }
                },
                None => if self.filename_use_content_disposition.spec_strict() {
                    Err(DownloadError::MissingDisposition)
                } else {
                    self.spec_fallback_filename()
                },
            }
        } else {
            self.spec_fallback_filename()
        }
    }

    /// The path the download is written to.
    pub open spec fn spec_destination(&self, header: Option<Seq<u8>>) -> Result<
        Seq<u8>,
        DownloadError,
    > {
        match self.spec_filename(header) {
            Ok(Some(n)) => Ok(spec_join(self.target@, encode_utf8(n))),
            Ok(None) => Ok(self.target@),
            Err(e) => Err(e),
        }
    }

    fn fallback_filename(&self) -> (r: Result<Option<String>, DownloadError>)
        ensures
            opt_name(r) == self.spec_fallback_filename(),
    {
        if self.filename_use_final_url.bool() {
            Err(DownloadError::FinalUrlUnsupported)
        } else {
            match &self.filename {
                Some(f) => Ok(Some(f.clone())),
                None => Ok(None),
            }
        }
    }

    /// The file name, as `spec_filename` states.
    pub fn filename(&self, header: Option<&[u8]>) -> (r: Result<Option<String>, DownloadError>)
        ensures
            opt_name(r) == self.spec_filename(opt_bytes(header)),
    {
        if self.filename_use_content_disposition.bool() {
            match header {
                Some(h) => match utf8_text(h) {
                    None => Err(DownloadError::DispositionNotUtf8),
                    Some(text) => match filename_from_disposition(text.as_str()) {
                        Ok(n) => Ok(Some(n)),
                        Err(e) => Err(DownloadError::Disposition(e)),
                    },
                },
                None => if self.filename_use_content_disposition.strict() {
                    Err(DownloadError::MissingDisposition)
                } else {
                    self.fallback_filename()
                },
            }
        } else {
            self.fallback_filename()
        }
    }

    /// The destination path, as `spec_destination` states.
    pub fn destination(&self, header: Option<&[u8]>) -> (r: Result<Vec<u8>, DownloadError>)
        ensures
            r matches Ok(p) ==> self.spec_destination(opt_bytes(header)) == Ok::<
                Seq<u8>,
                DownloadError,
            >(p@),
            r matches Err(e) ==> self.spec_destination(opt_bytes(header)) == Err::<
                Seq<u8>,
                DownloadError,
            >(e),
    {
        match self.filename(header) {
            Ok(Some(n)) => {
                let b = n.as_str().as_bytes_vec();
                Ok(join(self.target.as_slice(), b.as_slice()))
            },
            Ok(None) => Ok(self.target.clone()),
            Err(e) => Err(e),
        }
    }

    /// What the first response gives: the body's length and the destination
    /// path. The status is checked first, then the `Content-Length`, then
    /// the name.
    pub open spec fn spec_inspect(
        &self,
        preflight: bool,
        status: u16,
        length: Option<Seq<u8>>,
        disposition: Option<Seq<u8>>,
    ) -> Result<(u64, Seq<u8>), DownloadError> {
        if !is_success(status) {
            Err(DownloadError::Status { preflight, status })
        } else {
            match spec_content_length(length) {
                Err(e) => Err(e),
                Ok(len) => match self.spec_destination(disposition) {
                    Err(e) => Err(e),
                    Ok(p) => Ok((len, p)),
                },
            }
        }
    }

    /// What the first response gives, as `spec_inspect` states, from its
    /// status and its raw `Content-Length` and `Content-Disposition` headers.
    pub fn inspect_response(
        &self,
        preflight: bool,
        status: u16,
        length: Option<&[u8]>,
        disposition: Option<&[u8]>,
    ) -> (r: Result<(u64, Vec<u8>), DownloadError>)
        ensures
            r matches Ok((len, p)) ==> self.spec_inspect(
                preflight,
                status,
                opt_bytes(length),
                opt_bytes(disposition),
            ) == Ok::<(u64, Seq<u8>), DownloadError>((len, p@)),
            r matches Err(e) ==> self.spec_inspect(
                preflight,
                status,
                opt_bytes(length),
                opt_bytes(disposition),
            ) == Err::<(u64, Seq<u8>), DownloadError>(e),
    {
        match check_status(status, preflight) {
            Err(e) => Err(e),
            Ok(()) => match content_length(length) {
                Err(e) => Err(e),
                Ok(len) => match self.destination(disposition) {
                    Err(e) => Err(e),
                    Ok(p) => Ok((len, p)),
                },
            },
        }
    }

    /// What to do, given the remote length and the state of the destination.
    pub open spec fn spec_plan(&self, preflighted: bool, len: u64, dest: Destination) -> Result<
        Plan,
        DownloadError,
    > {
        let fetch_again = Plan::Fetch {
            outcome: Outcome::Redownload(len),
            new_request: preflighted,
            create_parent: false,
        };
        match dest {
            Destination::Other => Err(DownloadError::NotARegularFile),
            Destination::Missing => Ok(
                Plan::Fetch {
                    outcome: Outcome::Download(len),
                    new_request: preflighted,
                    create_parent: true,
                },
            ),
            Destination::File(size) => match self.overwrite {
                OverwriteBehaviour::Never => Ok(Plan::Existing),
                OverwriteBehaviour::Fail => Err(DownloadError::AlreadyExists),
                OverwriteBehaviour::Always => Ok(fetch_again),
                OverwriteBehaviour::CheckLength => if size == len {
                    Ok(Plan::Existing)
                } else {
                    Ok(fetch_again)
                },
            },
        }
    }

    /// What to do, as `spec_plan` states.
    pub fn plan(&self, preflighted: bool, len: u64, dest: Destination) -> (r: Result<
        Plan,
        DownloadError,
    >)
        ensures
            r == self.spec_plan(preflighted, len, dest),
    {
        let fetch_again = Plan::Fetch {
            outcome: Outcome::Redownload(len),
            new_request: preflighted,
            create_parent: false,
        };
        match dest {
            Destination::Other => Err(DownloadError::NotARegularFile),
            Destination::Missing => Ok(
                Plan::Fetch {
                    outcome: Outcome::Download(len),
                    new_request: preflighted,
                    create_parent: true,
                },
            ),
            Destination::File(size) => match self.overwrite {
                OverwriteBehaviour::Never => Ok(Plan::Existing),
                OverwriteBehaviour::Fail => Err(DownloadError::AlreadyExists),
                OverwriteBehaviour::Always => Ok(fetch_again),
                OverwriteBehaviour::CheckLength => if size == len {
                    Ok(Plan::Existing)
                } else {
                    Ok(fetch_again)
                },
            },
        }
    }
}

pub open spec fn opt_bytes(h: Option<&[u8]>) -> Option<Seq<u8>> {
    match h {
        Some(b) => Some(b@),
        None => None,
    }
}

pub open spec fn opt_name(r: Result<Option<String>, DownloadError>) -> Result<
    Option<Seq<char>>,
    DownloadError,
> {
    match r {
        Ok(Some(n)) => Ok(Some(n@)),
        Ok(None) => Ok(None),
        Err(e) => Err(e),
    }
}

/// Whether a status code is a success: 2xx.
pub open spec fn is_success(status: u16) -> bool {
    200 <= status <= 299
}

/// Accepts a 2xx status; any other fails the download, marked with the
/// request it answered.
pub fn check_status(status: u16, preflight: bool) -> (r: Result<(), DownloadError>)
    ensures
        r is Ok <==> is_success(status),
        r is Err ==> r == Err::<(), DownloadError>(DownloadError::Status { preflight, status }),
{
    if 200 <= status && status <= 299 {
        Ok(())
    } else {
        Err(DownloadError::Status { preflight, status })
    }
}

/// The length of the body, read from the raw `Content-Length` header.
pub open spec fn spec_content_length(header: Option<Seq<u8>>) -> Result<u64, DownloadError> {
    match header {
        None => Err(DownloadError::MissingContentLength),
        Some(h) => match spec_parse_u64(h) {
            Some(n) => Ok(n),
            None => Err(DownloadError::InvalidContentLength),
        },
    }
}

/// The length of the body, as `spec_content_length` states.
pub fn content_length(header: Option<&[u8]>) -> (r: Result<u64, DownloadError>)
    ensures
        r == spec_content_length(opt_bytes(header)),
{
    match header {
        None => Err(DownloadError::MissingContentLength),
        Some(h) => match parse_u64(h) {
            Some(n) => Ok(n),
            None => Err(DownloadError::InvalidContentLength),
        },
    }
}

/// Builds a `FileDownload`: the URL and the target must be given; every
/// other field has a default.
#[derive(Debug, Clone)]
pub struct FileDownloadBuilder {
    pub title: Option<String>,
    pub url: Option<String>,
    pub target: Option<Vec<u8>>,
    pub preflight_head: bool,
    pub overwrite: OverwriteBehaviour,
    pub filename_use_content_disposition: UsagePref,
    pub filename_use_final_url: UsagePref,
    pub filename: Option<String>,
}

/// A field that `build` found unset.
#[derive(Debug, Clone, Copy, PartialEq, Eq, Structural)]
pub enum BuildError {
    MissingUrl,
    MissingTarget,
}

impl FileDownloadBuilder {
    pub open spec fn spec_default() -> Self {
        FileDownloadBuilder {
            title: None,
            url: None,
            target: None,
            preflight_head: false,
            overwrite: OverwriteBehaviour::Never,
            filename_use_content_disposition: UsagePref::Reject,
            filename_use_final_url: UsagePref::Reject,
            filename: None,
        }
    }

    pub fn new() -> (r: Self)
        ensures
            r == Self::spec_default(),
    {
        FileDownloadBuilder {
            title: None,
            url: None,
            target: None,
            preflight_head: false,
            overwrite: OverwriteBehaviour::Never,
            filename_use_content_disposition: UsagePref::Reject,
            filename_use_final_url: UsagePref::Reject,
            filename: None,
        }
    }

    pub fn title(self, title: String) -> (r: Self)
        ensures
            r == (Self { title: Some(title), ..self }),
    {
        Self { title: Some(title), ..self }
    }

    pub fn url(self, url: String) -> (r: Self)
        ensures
            r == (Self { url: Some(url), ..self }),
    {
        Self { url: Some(url), ..self }
    }

    pub fn target(self, target: Vec<u8>) -> (r: Self)
        ensures
            r == (Self { target: Some(target), ..self }),
    {
        Self { target: Some(target), ..self }
    }

    pub fn preflight_head(self, flag: bool) -> (r: Self)
        ensures
            r == (Self { preflight_head: flag, ..self }),
    {
        Self { preflight_head: flag, ..self }
    }

    pub fn overwrite(self, behaviour: OverwriteBehaviour) -> (r: Self)
        ensures
            r == (Self { overwrite: behaviour, ..self }),
    {
        Self { overwrite: behaviour, ..self }
    }

    pub fn filename_use_content_disposition(self, pref: UsagePref) -> (r: Self)
        ensures
            r == (Self { filename_use_content_disposition: pref, ..self }),
    {
        Self { filename_use_content_disposition: pref, ..self }
    }

    pub fn filename_use_final_url(self, pref: UsagePref) -> (r: Self)
        ensures
            r == (Self { filename_use_final_url: pref, ..self }),
    {
        Self { filename_use_final_url: pref, ..self }
    }

    pub fn filename(self, name: String) -> (r: Self)
        ensures
            r == (Self { filename: Some(name), ..self }),
    {
        Self { filename: Some(name), ..self }
    }

    /// The download, once the URL and the target are set.
    pub fn build(self) -> (r: Result<FileDownload, BuildError>)
        ensures
            self.url is None ==> r == Err::<FileDownload, BuildError>(BuildError::MissingUrl),
            self.url is Some && self.target is None ==> r == Err::<FileDownload, BuildError>(
                BuildError::MissingTarget,
            ),
            self.url is Some && self.target is Some ==> r == Ok::<FileDownload, BuildError>(
                FileDownload {
                    title: self.title,
                    url: self.url->0,
                    target: self.target->0,
                    preflight_head: self.preflight_head,
                    overwrite: self.overwrite,
                    filename_use_content_disposition: self.filename_use_content_disposition,
                    filename_use_final_url: self.filename_use_final_url,
                    filename: self.filename,
                },
            ),
    {
        match (self.url, self.target) {
            (None, _) => Err(BuildError::MissingUrl),
            (Some(_), None) => Err(BuildError::MissingTarget),
            (Some(url), Some(target)) => Ok(
                FileDownload {
                    title: self.title,
                    url,
                    target,
                    preflight_head: self.preflight_head,
                    overwrite: self.overwrite,
                    filename_use_content_disposition: self.filename_use_content_disposition,
                    filename_use_final_url: self.filename_use_final_url,
                    filename: self.filename,
                },
            ),
        }
    }
}
/// The overwrite matrix. With a regular file of `size` bytes at the
/// destination and a remote length `len`: `Never` keeps it and fetches
/// nothing; `Fail` fails and fetches nothing; `Always` fetches the body
/// again; `CheckLength` keeps the file when the sizes agree and fetches
/// the body again when they differ.
pub proof fn lemma_overwrite_matrix(d: FileDownload, preflighted: bool, size: u64, len: u64)
    ensures
        d.overwrite == OverwriteBehaviour::Never ==> d.spec_plan(
            preflighted,
            len,
            Destination::File(size),
        ) == Ok::<Plan, DownloadError>(Plan::Existing),
        d.overwrite == OverwriteBehaviour::Fail ==> d.spec_plan(
            preflighted,
            len,
            Destination::File(size),
        ) == Err::<Plan, DownloadError>(DownloadError::AlreadyExists),
        d.overwrite == OverwriteBehaviour::Always ==> d.spec_plan(
            preflighted,
            len,
            Destination::File(size),
        ) == Ok::<Plan, DownloadError>(
            Plan::Fetch {
                outcome: Outcome::Redownload(len),
                new_request: preflighted,
                create_parent: false,
            },
        ),
        d.overwrite == OverwriteBehaviour::CheckLength && size == len ==> d.spec_plan(
            preflighted,
            len,
            Destination::File(size),
        ) == Ok::<Plan, DownloadError>(Plan::Existing),
        d.overwrite == OverwriteBehaviour::CheckLength && size != len ==> d.spec_plan(
            preflighted,
            len,
            Destination::File(size),
        ) == Ok::<Plan, DownloadError>(
            Plan::Fetch {
                outcome: Outcome::Redownload(len),
                new_request: preflighted,
                create_parent: false,
            },
        ),
{
}

/// The precedence of the name sources. A `Content-Disposition` header that
/// is read and present decides the name, whatever name is configured; a
/// required header that is absent is an error; a preferred header that is
/// absent gives way to the configured name, or else to the target taken as
/// the file's own path.
pub proof fn lemma_filename_precedence(d: FileDownload, header: Seq<u8>)
    ensures
        d.filename_use_content_disposition.spec_bool() && valid_utf8(header) ==> d.spec_filename(
            Some(header),
        ) == (match spec_filename_of(parsed_disposition(decode_utf8(header))) {
            Ok(n) => Ok(Some(n)),
            Err(e) => Err(DownloadError::Disposition(e)),
        }),
        d.filename_use_content_disposition == UsagePref::Require ==> d.spec_filename(None)
            == Err::<Option<Seq<char>>, DownloadError>(DownloadError::MissingDisposition),
        d.filename_use_content_disposition == UsagePref::Prefer && !d.filename_use_final_url.spec_bool()
            ==> d.spec_destination(None) == Ok::<Seq<u8>, DownloadError>(
            match d.filename {
                Some(f) => spec_join(d.target@, encode_utf8(f@)),
                None => d.target@,
            },
        ),
{
}

} // verus!
