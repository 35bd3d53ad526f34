//! The `person/v1` wire format.
//!
//! A request frame is one tag byte. A response frame is a tag byte followed
//! by the variant's fields: a decision is one byte (`0` or `1`); a profile is
//! its name, avatar and biography in that order. Text and byte blobs are
//! written as a little-endian `u64` length followed by that many bytes (text
//! as UTF-8); the avatar is preceded by a presence byte.
use vstd::prelude::*;
use vstd::bytes::{
    lemma_auto_spec_u64_to_from_le_bytes, spec_u64_from_le_bytes, spec_u64_to_le_bytes,
    u64_from_le_bytes, u64_to_le_bytes,
};
use vstd::slice::{slice_subrange, slice_to_vec};
use vstd::utf8::{decode_utf8, encode_utf8, valid_utf8};

use crate::person::{avatar_view, Person, PersonView};

verus! {

broadcast use vstd::utf8::group_utf8_lib;

/// What a peer asks of another. The variant alone carries the meaning.
#[derive(Clone, Copy, Debug, PartialEq, Eq, Structural)]
pub enum Request {
    Person,
    Friend,
    Chat,
}

/// The answer to a [`Request`], of the same variant.
#[derive(Clone, Debug, PartialEq, Eq)]
pub enum Response {
    Person(Person),
    Friend(bool),
    Chat(bool),
}

/// The mathematical value of a [`Response`].
pub ghost enum ResponseView {
    Person(PersonView),
    Friend(bool),
    Chat(bool),
}

impl View for Response {
    type V = ResponseView;

    open spec fn view(&self) -> ResponseView {
        match self {
            Response::Person(p) => ResponseView::Person(p@),
            Response::Friend(d) => ResponseView::Friend(*d),
            Response::Chat(d) => ResponseView::Chat(*d),
        }
    }
}

/// A frame that is not the encoding of any message.
#[derive(Clone, Copy, Debug, PartialEq, Eq, Structural)]
pub struct DecodeError;

pub open spec fn request_tag(r: Request) -> u8 {
    match r {
        Request::Person => 0,
        Request::Friend => 1,
        Request::Chat => 2,
    }
}

/// The frame of a request.
pub open spec fn request_bytes(r: Request) -> Seq<u8> {
    seq![request_tag(r)]
}

pub open spec fn flag_byte(b: bool) -> u8 {
    if b {
        1
    } else {
        0
    }
}

/// A byte blob behind its length.
pub open spec fn field_bytes(b: Seq<u8>) -> Seq<u8> {
    spec_u64_to_le_bytes(b.len() as u64) + b
}

/// A text as a field of its UTF-8 bytes.
pub open spec fn text_bytes(s: Seq<char>) -> Seq<u8> {
    field_bytes(encode_utf8(s))
}

pub open spec fn avatar_bytes(a: Option<Seq<u8>>) -> Seq<u8> {
    match a {
        None => seq![0u8],
        Some(b) => seq![1u8] + field_bytes(b),
    }
}

pub open spec fn person_bytes(p: PersonView) -> Seq<u8> {
    text_bytes(p.name) + avatar_bytes(p.avatar) + text_bytes(p.bio)
}

/// The frame of a response.
pub open spec fn response_bytes(r: ResponseView) -> Seq<u8> {
    match r {
        ResponseView::Person(p) => seq![0u8] + person_bytes(p),
        ResponseView::Friend(d) => seq![1u8, flag_byte(d)],
        ResponseView::Chat(d) => seq![2u8, flag_byte(d)],
    }
}

/// The response whose frame `bytes` is, if there is one.
pub open spec fn response_of(bytes: Seq<u8>) -> Option<ResponseView> {
    if exists|m: ResponseView| response_bytes(m) == bytes {
        Some(choose|m: ResponseView| response_bytes(m) == bytes)
    } else {
        None
    }
}

/// The request whose frame `bytes` is, if there is one.
pub open spec fn request_of(bytes: Seq<u8>) -> Option<Request> {
    if bytes.len() != 1 {
        None
    } else if bytes[0] == 0 {
        Some(Request::Person)
    } else if bytes[0] == 1 {
        Some(Request::Friend)
    } else if bytes[0] == 2 {
        Some(Request::Chat)
    } else {
        None
    }
}

/// Every field of the profile has a length that its length prefix can hold.
pub open spec fn fits(p: PersonView) -> bool {
    &&& encode_utf8(p.name).len() <= u64::MAX
    &&& encode_utf8(p.bio).len() <= u64::MAX
    &&& (p.avatar matches Some(a) ==> a.len() <= u64::MAX)
}

pub open spec fn response_fits(r: ResponseView) -> bool {
    r matches ResponseView::Person(p) ==> fits(p)
}

// Reading frames back, one field at a time: the exact inverse of the
// functions above on the frames they produce.
spec fn parse_field(b: Seq<u8>) -> Option<(Seq<u8>, Seq<u8>)> {
    if b.len() < 8 {
        None
    } else {
        let n = spec_u64_from_le_bytes(b.subrange(0, 8)) as int;
        if n > b.len() - 8 {
            None
        } else {
            Some((b.subrange(8, 8 + n), b.subrange(8 + n, b.len() as int)))
        }
    }
}

proof fn lemma_parse_field(a: Seq<u8>, t: Seq<u8>)
    requires
        a.len() <= u64::MAX,
    ensures
        parse_field(field_bytes(a) + t) == Some((a, t)),
{
    lemma_auto_spec_u64_to_from_le_bytes();
    let b = field_bytes(a) + t;
    let le = spec_u64_to_le_bytes(a.len() as u64);
    assert(b.subrange(0, 8) =~= le);
    assert(b.subrange(8, 8 + a.len() as int) =~= a);
    assert(b.subrange(8 + a.len() as int, b.len() as int) =~= t);
}

proof fn lemma_field_of_parse(b: Seq<u8>)
    requires
        parse_field(b) is Some,
    ensures
        ({
            let (a, t) = parse_field(b)->Some_0;
            b == field_bytes(a) + t && a.len() <= u64::MAX
        }),
{
    lemma_auto_spec_u64_to_from_le_bytes();
    let (a, t) = parse_field(b)->Some_0;
    let n = spec_u64_from_le_bytes(b.subrange(0, 8));
    assert(a.len() == n);
    assert(spec_u64_to_le_bytes(spec_u64_from_le_bytes(b.subrange(0, 8))) == b.subrange(0, 8));
    assert(b =~= field_bytes(a) + t);
}

spec fn parse_text(b: Seq<u8>) -> Option<(Seq<char>, Seq<u8>)> {
    match parse_field(b) {
        Some((t, rest)) => if valid_utf8(t) {
            Some((decode_utf8(t), rest))
        } else {
            None
        },
        None => None,
    }
}

spec fn parse_avatar(b: Seq<u8>) -> Option<(Option<Seq<u8>>, Seq<u8>)> {
    if b.len() == 0 {
        None
    } else if b[0] == 0 {
        Some((None, b.drop_first()))
    } else if b[0] == 1 {
        match parse_field(b.drop_first()) {
            Some((a, rest)) => Some((Some(a), rest)),
            None => None,
        }
    } else {
        None
    }
}

spec fn parse_person(b: Seq<u8>) -> Option<PersonView> {
    match parse_text(b) {
        Some((name, r1)) => match parse_avatar(r1) {
            Some((avatar, r2)) => match parse_text(r2) {
                Some((bio, r3)) => if r3.len() == 0 {
                    Some(PersonView { name, avatar, bio })
                } else {
                    None
                },
                None => None,
            },
            None => None,
        },
        None => None,
    }
}

spec fn parse_response(b: Seq<u8>) -> Option<ResponseView> {
    if b.len() == 0 {
        None
    } else if b[0] == 0 {
        match parse_person(b.drop_first()) {
            Some(p) => Some(ResponseView::Person(p)),
            None => None,
        }
    } else if b.len() == 2 && b[1] <= 1 && b[0] == 1 {
        Some(ResponseView::Friend(b[1] == 1))
    } else if b.len() == 2 && b[1] <= 1 && b[0] == 2 {
        Some(ResponseView::Chat(b[1] == 1))
    } else {
        None
    }
}

proof fn lemma_parse_text(s: Seq<char>, t: Seq<u8>)
    requires
        encode_utf8(s).len() <= u64::MAX,
    ensures
        parse_text(text_bytes(s) + t) == Some((s, t)),
{
    lemma_parse_field(encode_utf8(s), t);
}

proof fn lemma_text_of_parse(b: Seq<u8>)
    requires
        parse_text(b) is Some,
    ensures
        ({
            let (s, t) = parse_text(b)->Some_0;
            b == text_bytes(s) + t && encode_utf8(s).len() <= u64::MAX
        }),
{
    lemma_field_of_parse(b);
}

proof fn lemma_parse_avatar(a: Option<Seq<u8>>, t: Seq<u8>)
    requires
        a matches Some(x) ==> x.len() <= u64::MAX,
    ensures
        parse_avatar(avatar_bytes(a) + t) == Some((a, t)),
{
    let b = avatar_bytes(a) + t;
    match a {
        None => {
            assert(b.drop_first() =~= t);
        },
        Some(x) => {
            lemma_parse_field(x, t);
            assert(b.drop_first() =~= field_bytes(x) + t);
        },
    }
}

proof fn lemma_avatar_of_parse(b: Seq<u8>)
    requires
        parse_avatar(b) is Some,
    ensures
        ({
            let (a, t) = parse_avatar(b)->Some_0;
            &&& b == avatar_bytes(a) + t
            &&& a matches Some(x) ==> x.len() <= u64::MAX
        }),
{
    if b[0] == 0 {
        assert(b =~= seq![0u8] + b.drop_first());
    } else {
        lemma_field_of_parse(b.drop_first());
        let (x, t) = parse_field(b.drop_first())->Some_0;
        assert(b =~= seq![1u8] + (field_bytes(x) + t));
        assert(b =~= (seq![1u8] + field_bytes(x)) + t);
    }
}

proof fn lemma_parse_person(p: PersonView)
    requires
        fits(p),
    ensures
        parse_person(person_bytes(p)) == Some(p),
{
    let nb = text_bytes(p.name);
    let ab = avatar_bytes(p.avatar);
    let bb = text_bytes(p.bio);
    assert(person_bytes(p) =~= nb + (ab + bb));
    lemma_parse_text(p.name, ab + bb);
    lemma_parse_avatar(p.avatar, bb);
    lemma_parse_text(p.bio, Seq::<u8>::empty());
    assert(bb + Seq::<u8>::empty() =~= bb);
}

proof fn lemma_person_of_parse(b: Seq<u8>)
    requires
        parse_person(b) is Some,
    ensures
        b == person_bytes(parse_person(b)->Some_0),
        fits(parse_person(b)->Some_0),
{
    lemma_text_of_parse(b);
    let (name, r1) = parse_text(b)->Some_0;
    lemma_avatar_of_parse(r1);
    let (avatar, r2) = parse_avatar(r1)->Some_0;
    lemma_text_of_parse(r2);
    let (bio, r3) = parse_text(r2)->Some_0;
    assert(r2 =~= text_bytes(bio));
    assert(b =~= text_bytes(name) + avatar_bytes(avatar) + text_bytes(bio));
}

proof fn lemma_parse_response(m: ResponseView)
    requires
        response_fits(m),
    ensures
        parse_response(response_bytes(m)) == Some(m),
{
    if let ResponseView::Person(p) = m {
        lemma_parse_person(p);
        assert(response_bytes(m).drop_first() =~= person_bytes(p));
    }
}

proof fn lemma_response_of_parse(b: Seq<u8>)
    requires
        parse_response(b) is Some,
    ensures
        response_bytes(parse_response(b)->Some_0) == b,
        response_fits(parse_response(b)->Some_0),
{
    if b[0] == 0 {
        lemma_person_of_parse(b.drop_first());
        assert(b =~= seq![0u8] + b.drop_first());
    } else {
        assert(b =~= seq![b[0], b[1]]);
    }
}

/// Every response whose frame fits in memory has fields that fit their
/// length prefix.
proof fn lemma_response_fits(m: ResponseView)
    requires
        response_bytes(m).len() <= u64::MAX,
    ensures
        response_fits(m),
{
    if let ResponseView::Person(p) = m {
        assert(encode_utf8(p.name).len() <= text_bytes(p.name).len());
        assert(encode_utf8(p.bio).len() <= text_bytes(p.bio).len());
        if let Some(a) = p.avatar {
            assert(a.len() <= avatar_bytes(p.avatar).len());
        }
    }
}

/// The frame of a response determines the response.
pub proof fn lemma_response_bytes_injective(m1: ResponseView, m2: ResponseView)
    requires
        response_bytes(m1) == response_bytes(m2),
        response_bytes(m1).len() <= u64::MAX,
    ensures
        m1 == m2,
{
    lemma_response_fits(m1);
    lemma_response_fits(m2);
    lemma_parse_response(m1);
    lemma_parse_response(m2);
}

/// Relies on `String::from_utf8`: it accepts exactly the byte sequences that
/// are well-formed UTF-8, and the accepted bytes become the string's contents.
#[verifier::external_body]
fn string_from_utf8(bytes: Vec<u8>) -> (r: Option<String>)
    ensures
        r is Some <==> valid_utf8(bytes@),
        r matches Some(s) ==> encode_utf8(s@) == bytes@,
{
    String::from_utf8(bytes).ok()
}

fn write_field(out: &mut Vec<u8>, b: &[u8])
    ensures
        final(out)@ == old(out)@ + field_bytes(b@),
{
    let ghost start = out@;
    let mut len = u64_to_le_bytes(b.len() as u64);
    let mut body = slice_to_vec(b);
    out.append(&mut len);
    out.append(&mut body);
    assert(out@ =~= start + field_bytes(b@));
}

fn write_text(out: &mut Vec<u8>, s: &str)
    ensures
        final(out)@ == old(out)@ + text_bytes(s@),
{
    write_field(out, s.as_bytes());
}

/// The frame of a request.
pub fn encode_request(r: Request) -> (bytes: Vec<u8>)
    ensures
        bytes@ == request_bytes(r),
{
    let tag: u8 = match r {
        Request::Person => 0,
        Request::Friend => 1,
        Request::Chat => 2,
    };
    let mut out: Vec<u8> = Vec::new();
    out.push(tag);
    assert(out@ =~= request_bytes(r));
    out
}

/// Reads a request frame: the request whose frame `bytes` is, or
/// `DecodeError` where there is none.
pub fn decode_request(bytes: &[u8]) -> (r: Result<Request, DecodeError>)
    ensures
        match request_of(bytes@) {
            Some(q) => r == Ok::<Request, DecodeError>(q),
            None => r is Err,
        },
{
    if bytes.len() != 1 {
        return Err(DecodeError);
    }
    let tag = bytes[0];
    if tag == 0 {
        Ok(Request::Person)
    } else if tag == 1 {
        Ok(Request::Friend)
    } else if tag == 2 {
        Ok(Request::Chat)
    } else {
        Err(DecodeError)
    }
}

fn write_person(out: &mut Vec<u8>, p: &Person)
    ensures
        final(out)@ == old(out)@ + person_bytes(p@),
{
    let ghost start = out@;
    write_text(out, p.name.as_str());
    match &p.avatar {
        None => {
            out.push(0u8);
        },
        Some(a) => {
            out.push(1u8);
            write_field(out, a.as_slice());
        },
    }
    write_text(out, p.bio.as_str());
    assert(out@ =~= start + person_bytes(p@));
}

/// The frame of the response that carries the profile `p`, written without
/// taking a copy of it.
pub fn encode_person_response(p: &Person) -> (bytes: Vec<u8>)
    ensures
        bytes@ == response_bytes(ResponseView::Person(p@)),
{
    let mut out: Vec<u8> = Vec::new();
    out.push(0u8);
    write_person(&mut out, p);
    assert(out@ =~= response_bytes(ResponseView::Person(p@)));
    out
}

/// The frame of a response.
pub fn encode_response(r: &Response) -> (bytes: Vec<u8>)
    ensures
        bytes@ == response_bytes(r@),
{
    let mut out: Vec<u8> = Vec::new();
    match r {
        Response::Person(p) => {
            out.push(0u8);
            write_person(&mut out, p);
            assert(out@ =~= response_bytes(r@));
        },
        Response::Friend(d) => {
            out.push(1u8);
            out.push(if *d { 1u8 } else { 0u8 });
            assert(out@ =~= response_bytes(r@));
        },
        Response::Chat(d) => {
            out.push(2u8);
            out.push(if *d { 1u8 } else { 0u8 });
            assert(out@ =~= response_bytes(r@));
        },
    }
    out
}

fn read_field(bytes: &[u8], pos: usize) -> (r: Option<(Vec<u8>, usize)>)
    requires
        pos <= bytes@.len(),
    ensures
        match parse_field(bytes@.subrange(pos as int, bytes@.len() as int)) {
            None => r is None,
            Some((a, t)) => r matches Some((v, end)) && v@ == a && pos <= end <= bytes@.len()
                && t == bytes@.subrange(end as int, bytes@.len() as int),
        },
{
    let ghost rest = bytes@.subrange(pos as int, bytes@.len() as int);
    let len = bytes.len();
    if len - pos < 8 {
        return None;
    }
    let n = u64_from_le_bytes(slice_subrange(bytes, pos, pos + 8));
    assert(rest.subrange(0, 8) =~= bytes@.subrange(pos as int, pos + 8));
    if n > (len - pos - 8) as u64 {
        return None;
    }
    let end = pos + 8 + n as usize;
    let v = slice_to_vec(slice_subrange(bytes, pos + 8, end));
    assert(v@ =~= rest.subrange(8, 8 + n as int));
    assert(rest.subrange(8 + n as int, rest.len() as int) =~= bytes@.subrange(
        end as int,
        bytes@.len() as int,
    ));
    Some((v, end))
}

fn read_text(bytes: &[u8], pos: usize) -> (r: Option<(String, usize)>)
    requires
        pos <= bytes@.len(),
    ensures
        match parse_text(bytes@.subrange(pos as int, bytes@.len() as int)) {
            None => r is None,
            Some((s, t)) => r matches Some((v, end)) && v@ == s && pos <= end <= bytes@.len()
                && t == bytes@.subrange(end as int, bytes@.len() as int),
        },
{
    match read_field(bytes, pos) {
        None => None,
        Some((v, end)) => {
            match string_from_utf8(v) {
                None => None,
                Some(s) => {
                    assert(decode_utf8(encode_utf8(s@)) == s@);
                    Some((s, end))
                },
            }
        },
    }
}

fn read_avatar(bytes: &[u8], pos: usize) -> (r: Option<(Option<Vec<u8>>, usize)>)
    requires
        pos <= bytes@.len(),
    ensures
        match parse_avatar(bytes@.subrange(pos as int, bytes@.len() as int)) {
            None => r is None,
            Some((a, t)) => r matches Some((v, end)) && avatar_view(v) == a && pos <= end
                <= bytes@.len() && t == bytes@.subrange(end as int, bytes@.len() as int),
        },
{
    let ghost rest = bytes@.subrange(pos as int, bytes@.len() as int);
    if pos == bytes.len() {
        return None;
    }
    assert(rest.drop_first() =~= bytes@.subrange(pos + 1, bytes@.len() as int));
    let tag = bytes[pos];
    if tag == 0 {
        Some((None, pos + 1))
    } else if tag == 1 {
        match read_field(bytes, pos + 1) {
            None => None,
            Some((v, end)) => Some((Some(v), end)),
        }
    } else {
        None
    }
}

fn read_person(bytes: &[u8], pos: usize) -> (r: Option<Person>)
    requires
        pos <= bytes@.len(),
    ensures
        match parse_person(bytes@.subrange(pos as int, bytes@.len() as int)) {
            None => r is None,
            Some(p) => r matches Some(x) && x@ == p,
        },
{
    let (name, after_name) = match read_text(bytes, pos) {
        None => return None,
        Some(x) => x,
    };
    let (avatar, after_avatar) = match read_avatar(bytes, after_name) {
        None => return None,
        Some(x) => x,
    };
    let (bio, end) = match read_text(bytes, after_avatar) {
        None => return None,
        Some(x) => x,
    };
    if end != bytes.len() {
        return None;
    }
    Some(Person { name, avatar, bio })
}

/// Reads a response frame: the response whose frame `bytes` is, or
/// `DecodeError` where there is none.
pub fn decode_response(bytes: &[u8]) -> (r: Result<Response, DecodeError>)
    ensures
        r matches Ok(m) ==> response_bytes(m@) == bytes@,
        r is Err ==> forall|m: ResponseView| response_bytes(m) != bytes@,
{
    let parsed = parse_message(bytes);
    let total = bytes.len();
    proof {
        assert(total as int <= u64::MAX);
        if parse_response(bytes@) is Some {
            lemma_response_of_parse(bytes@);
        }
        assert forall|m: ResponseView| response_bytes(m) == bytes@ implies parse_response(
            bytes@,
        ) == Some(m) by {
            lemma_response_fits(m);
            lemma_parse_response(m);
        }
    }
    match parsed {
        Some(m) => Ok(m),
        None => Err(DecodeError),
    }
}

fn parse_message(bytes: &[u8]) -> (r: Option<Response>)
    ensures
        match parse_response(bytes@) {
            None => r is None,
            Some(m) => r matches Some(x) && x@ == m,
        },
{
    if bytes.len() == 0 {
        return None;
    }
    let tag = bytes[0];
    if tag == 0 {
        assert(bytes@.drop_first() =~= bytes@.subrange(1, bytes@.len() as int));
        match read_person(bytes, 1) {
            None => None,
            Some(p) => Some(Response::Person(p)),
        }
    } else if bytes.len() == 2 && bytes[1] <= 1 && tag == 1 {
        Some(Response::Friend(bytes[1] == 1))
    } else if bytes.len() == 2 && bytes[1] <= 1 && tag == 2 {
        Some(Response::Chat(bytes[1] == 1))
    } else {
        None
    }
}

/// A request frame names exactly its request, and no other frame names one.
pub proof fn lemma_request_of(q: Request, bytes: Seq<u8>)
    ensures
        request_of(request_bytes(q)) == Some(q),
        request_of(bytes) == Some(q) <==> bytes == request_bytes(q),
{
    if request_of(bytes) == Some(q) {
        assert(bytes =~= request_bytes(q));
    }
}

/// A response frame that fits in memory names exactly its response.
pub proof fn lemma_response_of(m: ResponseView)
    requires
        response_bytes(m).len() <= usize::MAX,
    ensures
        response_of(response_bytes(m)) == Some(m),
{
    let m2 = choose|x: ResponseView| response_bytes(x) == response_bytes(m);
    lemma_response_bytes_injective(m, m2);
}

/// Reading back the frame of a profile response gives the same profile
/// response, for every profile whose frame fits in memory.
pub proof fn lemma_profile_round_trip(p: PersonView)
    requires
        response_bytes(ResponseView::Person(p)).len() <= usize::MAX,
    ensures
        response_of(response_bytes(ResponseView::Person(p))) == Some(ResponseView::Person(p)),
{
    lemma_response_of(ResponseView::Person(p));
}

} // verus!
