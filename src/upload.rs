//! Decoding a multipart upload into its typed fields under a size ceiling.
use vstd::prelude::*;

verus! {

/// The ceiling on the total bytes of an upload in the default deployment.
pub const UPLOAD_CEILING: u64 = 10_000_000;

/// What `String::from_utf8_lossy` makes of a byte sequence.
pub uninterp spec fn utf8_lossy(b: Seq<u8>) -> Seq<char>;

/// The RFC 3339 text that chrono writes back for `s`, when chrono parses `s`.
pub uninterp spec fn rfc3339_normal_form(s: Seq<char>) -> Option<Seq<char>>;

/// Relies on `String::from_utf8_lossy`: the text depends on the bytes alone, and no
/// bytes give no text.
#[verifier::external_body]
fn lossy_text(b: &Vec<u8>) -> (r: String)
    ensures
        r@ == utf8_lossy(b@),
        b@.len() == 0 ==> r@.len() == 0,
{
    String::from_utf8_lossy(b.as_slice()).into_owned()
}

/// Relies on chrono's `DateTime::parse_from_rfc3339` to accept or refuse `s`, and on
/// `DateTime::to_rfc3339` to write the parsed instant back with its offset; both depend
/// on the text alone.
#[verifier::external_body]
fn normalize_rfc3339(s: &String) -> (r: Option<String>)
    ensures
        match r {
            Some(t) => rfc3339_normal_form(s@) == Some(t@),
            None => rfc3339_normal_form(s@) is None,
        },
{
    match chrono::DateTime::parse_from_rfc3339(s.as_str()) {
        Ok(d) => Some(d.to_rfc3339()),
        Err(_) => None,
    }
}

/// One part of a multipart body, with all of its bytes.
pub struct Part {
    pub name: String,
    pub filename: Option<String>,
    pub data: Vec<u8>,
}

pub struct PartView {
    pub name: Seq<char>,
    pub filename: Option<Seq<char>>,
    pub data: Seq<u8>,
}

/// What the transport handed over: a part, or a failure while streaming one.
pub enum Received {
    Part(Part),
    Fault,
}

pub enum ReceivedView {
    Part(PartView),
    Fault,
}

impl View for Received {
    type V = ReceivedView;

    open spec fn view(&self) -> ReceivedView {
        match self {
            Received::Part(p) => ReceivedView::Part(
                PartView {
                    name: p.name@,
                    filename: match p.filename {
                        Some(f) => Some(f@),
                        None => None,
                    },
                    data: p.data@,
                },
            ),
            Received::Fault => ReceivedView::Fault,
        }
    }
}

/// Why an upload could not be decoded.
#[derive(Debug, Clone, Copy, PartialEq, Eq, Structural)]
pub enum DecodeError {
    Transport,
    TooLarge,
    NoFile,
}

/// The fields of a decoded upload.
pub struct DecodedUpload {
    pub payload: Vec<u8>,
    pub filename: Option<String>,
    pub title: Option<String>,
    pub creation_date: Option<String>,
}

pub struct UploadView {
    pub payload: Seq<u8>,
    pub filename: Option<Seq<char>>,
    pub title: Option<Seq<char>>,
    pub creation_date: Option<Seq<char>>,
}

impl View for DecodedUpload {
    type V = UploadView;

    open spec fn view(&self) -> UploadView {
        UploadView {
            payload: self.payload@,
            filename: match self.filename {
                Some(f) => Some(f@),
                None => None,
            },
            title: match self.title {
                Some(t) => Some(t@),
                None => None,
            },
            creation_date: match self.creation_date {
                Some(d) => Some(d@),
                None => None,
            },
        }
    }
}

pub open spec fn file_key() -> Seq<char> {
    seq!['f', 'i', 'l', 'e']
}

pub open spec fn title_key() -> Seq<char> {
    seq!['t', 'i', 't', 'l', 'e']
}

pub open spec fn date_key() -> Seq<char> {
    seq!['c', 'r', 'e', 'a', 't', 'i', 'o', 'n', 'D', 'a', 't', 'e']
}

pub open spec fn has_fault(s: Seq<ReceivedView>) -> bool {
    exists|i: int| 0 <= i < s.len() && #[trigger] s[i] is Fault
}

/// The bytes of all parts together.
pub open spec fn total_len(s: Seq<ReceivedView>) -> nat
    decreases s.len(),
{
    if s.len() == 0 {
        0
    } else {
        total_len(s.drop_last()) + match s.last() {
            ReceivedView::Part(p) => p.data.len(),
            ReceivedView::Fault => 0,
        }
    }
}

/// The last part named `file`.
pub open spec fn file_part(s: Seq<ReceivedView>) -> Option<PartView>
    decreases s.len(),
{
    if s.len() == 0 {
        None
    } else {
        match s.last() {
            ReceivedView::Part(p) if p.name == file_key() => Some(p),
            _ => file_part(s.drop_last()),
        }
    }
}

/// The text of the last part named `title`.
pub open spec fn title_field(s: Seq<ReceivedView>) -> Option<Seq<char>>
    decreases s.len(),
{
    if s.len() == 0 {
        None
    } else {
        match s.last() {
            ReceivedView::Part(p) if p.name == title_key() => Some(utf8_lossy(p.data)),
            _ => title_field(s.drop_last()),
        }
    }
}

/// The last part named `creationDate` whose text is an RFC 3339 timestamp, written
/// back in normal form; parts whose text does not parse are passed over.
pub open spec fn date_field(s: Seq<ReceivedView>) -> Option<Seq<char>>
    decreases s.len(),
{
    if s.len() == 0 {
        None
    } else {
        match s.last() {
            ReceivedView::Part(p) if p.name == date_key() && rfc3339_normal_form(
                utf8_lossy(p.data),
            ) is Some => rfc3339_normal_form(utf8_lossy(p.data)),
            _ => date_field(s.drop_last()),
        }
    }
}

/// The result of decoding the stream `s` under `ceiling`.
pub open spec fn decode_spec(s: Seq<ReceivedView>, ceiling: u64) -> Result<UploadView, DecodeError> {
    if has_fault(s) {
        Err(DecodeError::Transport)
    } else if total_len(s) > ceiling {
        Err(DecodeError::TooLarge)
    } else {
        match file_part(s) {
            None => Err(DecodeError::NoFile),
            Some(f) => Ok(
                UploadView {
                    payload: f.data,
                    filename: f.filename,
                    title: title_field(s),
                    creation_date: date_field(s),
                },
            ),
        }
    }
}

pub open spec fn stream_view(s: Seq<Received>) -> Seq<ReceivedView> {
    s.map_values(|r: Received| r@)
}

fn clone_opt(t: &Option<String>) -> (r: Option<String>)
    ensures
        match r {
            Some(a) => t matches Some(b) && a@ == b@,
            None => t is None,
        },
{
    match t {
        Some(s) => Some(s.clone()),
        None => None,
    }
}

/// Decodes `stream` in one pass: any transport fault rejects it, then a total above
/// `ceiling`, then the want of a `file` part; other field names are ignored.
pub fn decode(stream: &Vec<Received>, ceiling: u64) -> (r: Result<DecodedUpload, DecodeError>)
    ensures
        match (r, decode_spec(stream_view(stream@), ceiling)) {
            (Ok(u), Ok(v)) => u@ == v,
            (Err(e), Err(f)) => e == f,
            _ => false,
        },
{
    let ghost s = stream_view(stream@);
    let file_name = "file".to_owned();
    let title_name = "title".to_owned();
    let date_name = "creationDate".to_owned();
    proof {
        reveal_strlit("file");
        reveal_strlit("title");
        reveal_strlit("creationDate");
        assert(file_name@ =~= file_key());
        assert(title_name@ =~= title_key());
        assert(date_name@ =~= date_key());
    }
    let mut total: u64 = 0;
    let mut over = false;
    let mut file_at: Option<usize> = None;
    let mut title: Option<String> = None;
    let mut date: Option<String> = None;
    let n = stream.len();
    let mut i: usize = 0;
    while i < n
        invariant
            n == stream.len(),
            i <= n,
            s == stream_view(stream@),
            file_name@ == file_key(),
            title_name@ == title_key(),
            date_name@ == date_key(),
            !has_fault(s.take(i as int)),
            over <==> total_len(s.take(i as int)) > ceiling,
            !over ==> total == total_len(s.take(i as int)),
            match file_at {
                Some(k) => k < i && file_part(s.take(i as int)) == Some(
                    s[k as int]->Part_0,
                ) && s[k as int] is Part,
                None => file_part(s.take(i as int)) is None,
            },
            match title {
                Some(t) => title_field(s.take(i as int)) == Some(t@),
                None => title_field(s.take(i as int)) is None,
            },
            match date {
                Some(d) => date_field(s.take(i as int)) == Some(d@),
                None => date_field(s.take(i as int)) is None,
            },
        decreases n - i,
    {
        let ghost pre = s.take(i as int);
        assert(s.take(i + 1).drop_last() =~= pre);
        assert(s.take(i + 1).last() == s[i as int]);
        match &stream[i] {
            Received::Fault => {
                assert(s[i as int] is Fault);
                assert(has_fault(s));
                return Err(DecodeError::Transport);
            },
            Received::Part(p) => {
                let len = p.data.len();
                if !over {
                    if len as u64 > ceiling - total {
                        over = true;
                    } else {
                        total = total + len as u64;
                    }
                }
                if p.name == file_name {
                    file_at = Some(i);
                } else if p.name == title_name {
                    title = Some(lossy_text(&p.data));
                } else if p.name == date_name {
                    let text = lossy_text(&p.data);
                    match normalize_rfc3339(&text) {
                        Some(d) => {
                            date = Some(d);
                        },
                        None => {},
                    }
                }
            },
        }
        assert(!has_fault(s.take(i + 1))) by {
            if has_fault(s.take(i + 1)) {
                let k = choose|k: int| 0 <= k < i + 1 && #[trigger] s.take(i + 1)[k] is Fault;
                if k < i {
                    assert(pre[k] is Fault);
                }
            }
        }
        i = i + 1;
    }
    assert(s.take(n as int) =~= s);
    if over {
        return Err(DecodeError::TooLarge);
    }
    match file_at {
        None => Err(DecodeError::NoFile),
        Some(k) => {
            match &stream[k] {
                Received::Part(p) => {
                    let payload = vstd::slice::slice_to_vec(p.data.as_slice());
                    Ok(
                        DecodedUpload {
                            payload,
                            filename: clone_opt(&p.filename),
                            title,
                            creation_date: date,
                        },
                    )
                },
                Received::Fault => Err(DecodeError::Transport),
            }
        },
    }
}

} // verus!
