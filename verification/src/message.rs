//! Messages and the decoding of raw fetch records into them.

use vstd::prelude::*;

verus! {

use vstd::utf8::valid_utf8;
use vstd::utf8::decode_utf8;
use crate::flag::Flag;
use crate::flag::FlagModel;
use crate::flag::spec_from_wire;
use crate::flag::from_wire;

/// A decoded message: UTF-8 body text, server-assigned unique id, size in
/// bytes, and its flags in the order the server listed them.
#[derive(Debug, PartialEq, Eq)]
pub struct Message {
    pub body: String,
    pub uid: u32,
    pub size: u32,
    pub flags: Vec<Flag>,
}

/// Mathematical model of a message.
pub struct MessageModel {
    pub body: Seq<char>,
    pub uid: u32,
    pub size: u32,
    pub flags: Seq<FlagModel>,
}

impl View for Message {
    type V = MessageModel;

    open spec fn view(&self) -> MessageModel {
        MessageModel {
            body: self.body@,
            uid: self.uid,
            size: self.size,
            flags: self.flags.deep_view(),
        }
    }
}

impl DeepView for Message {
    type V = MessageModel;

    open spec fn deep_view(&self) -> MessageModel {
        self.view()
    }
}

/// One raw per-message record as the protocol exchange yields it: undecoded
/// body bytes, unique id, size, and the wire tokens of its flags.
#[derive(Debug)]
pub struct RawRecord {
    pub body: Vec<u8>,
    pub uid: u32,
    pub size: u32,
    pub flags: Vec<String>,
}

/// Mathematical model of a raw record.
pub struct RawRecordModel {
    pub body: Seq<u8>,
    pub uid: u32,
    pub size: u32,
    pub flags: Seq<Seq<char>>,
}

impl View for RawRecord {
    type V = RawRecordModel;

    open spec fn view(&self) -> RawRecordModel {
        RawRecordModel {
            body: self.body@,
            uid: self.uid,
            size: self.size,
            flags: self.flags.deep_view(),
        }
    }
}

impl DeepView for RawRecord {
    type V = RawRecordModel;

    open spec fn deep_view(&self) -> RawRecordModel {
        self.view()
    }
}

/// The message a single raw record decodes to, assuming its body is valid
/// UTF-8.
pub open spec fn spec_decode_record(r: RawRecordModel) -> MessageModel {
    MessageModel {
        body: decode_utf8(r.body),
        uid: r.uid,
        size: r.size,
        flags: r.flags.map_values(|t: Seq<char>| spec_from_wire(t)),
    }
}

/// The decode of a whole fetch result: records stay in server order, and a
/// record whose body is not valid UTF-8 is omitted.
pub open spec fn spec_decode_records(rs: Seq<RawRecordModel>) -> Seq<MessageModel>
    decreases rs.len(),
{
    if rs.len() == 0 {
        Seq::empty()
    } else {
        let rest = spec_decode_records(rs.drop_last());
        if valid_utf8(rs.last().body) {
            rest.push(spec_decode_record(rs.last()))
        } else {
            rest
        }
    }
}

/// The records whose body is valid text, in order.
pub open spec fn spec_valid_records(rs: Seq<RawRecordModel>) -> Seq<RawRecordModel> {
    rs.filter(|r: RawRecordModel| valid_utf8(r.body))
}

/// Law (decode skip): a fetch decode drops exactly the records whose body is
/// not valid UTF-8 — the result is the valid records, each decoded, with
/// nothing else lost, reordered or invented.
pub proof fn lemma_decode_drops_only_invalid(rs: Seq<RawRecordModel>)
    ensures
        spec_decode_records(rs) == spec_valid_records(rs).map_values(
            |r: RawRecordModel| spec_decode_record(r),
        ),
    decreases rs.len(),
{
    reveal(Seq::filter);
    if rs.len() == 0 {
        assert(spec_valid_records(rs).map_values(|r: RawRecordModel| spec_decode_record(r))
            =~= Seq::<MessageModel>::empty());
    } else {
        lemma_decode_drops_only_invalid(rs.drop_last());
        let sub = spec_valid_records(rs.drop_last());
        let decoded_sub = sub.map_values(|r: RawRecordModel| spec_decode_record(r));
        if valid_utf8(rs.last().body) {
            assert(spec_valid_records(rs) == sub.push(rs.last()));
            assert(sub.push(rs.last()).map_values(|r: RawRecordModel| spec_decode_record(r))
                =~= decoded_sub.push(spec_decode_record(rs.last())));
        } else {
            assert(spec_valid_records(rs) == sub);
        }
    }
}

/// Law (fetch ordering): when every body is valid text nothing is dropped —
/// the result has one message per record, in the server's sequence order,
/// whatever the uid order.
pub proof fn lemma_decode_keeps_server_order(rs: Seq<RawRecordModel>)
    requires
        forall|i: int| 0 <= i < rs.len() ==> valid_utf8((#[trigger] rs[i]).body),
    ensures
        spec_decode_records(rs).len() == rs.len(),
        forall|i: int|
            0 <= i < rs.len() ==> spec_decode_records(rs)[i] == spec_decode_record(
                #[trigger] rs[i],
            ),
    decreases rs.len(),
{
    if rs.len() > 0 {
        assert forall|i: int|
            0 <= i < rs.drop_last().len() implies valid_utf8(
            (#[trigger] rs.drop_last()[i]).body,
        ) by {
            assert(rs.drop_last()[i] == rs[i]);
        }
        lemma_decode_keeps_server_order(rs.drop_last());
        assert forall|i: int|
            0 <= i < rs.len() implies spec_decode_records(rs)[i] == spec_decode_record(
            #[trigger] rs[i],
        ) by {
            if i < rs.len() - 1 {
                assert(rs.drop_last()[i] == rs[i]);
                assert(spec_decode_records(rs.drop_last())[i] == spec_decode_record(
                    rs.drop_last()[i],
                ));
            } else {
                assert(spec_decode_records(rs)[i] == spec_decode_record(rs.last()));
            }
        }
    }
}

/// Relies on std's String::from_utf8: it succeeds exactly when the bytes are
/// valid UTF-8, and then returns their decoding.
#[verifier::external_body]
fn utf8_to_string(bytes: &Vec<u8>) -> (r: Option<String>)
    ensures
        r is Some <==> valid_utf8(bytes@),
        r is Some ==> r->Some_0@ == decode_utf8(bytes@),
{
    String::from_utf8(bytes.clone()).ok()
}

/// Parses a list of wire tokens into flags, in order.
pub fn parse_flags(tokens: &Vec<String>) -> (out: Vec<Flag>)
    ensures
        out.deep_view() == tokens.deep_view().map_values(|t: Seq<char>| spec_from_wire(t)),
{
    let mut out: Vec<Flag> = Vec::new();
    let mut i: usize = 0;
    while i < tokens.len()
        invariant
            i <= tokens@.len(),
            out.deep_view() == tokens.deep_view().take(i as int).map_values(
                |t: Seq<char>| spec_from_wire(t),
            ),
        decreases tokens@.len() - i,
    {
        let ghost old_out = out.deep_view();
        let f = from_wire(tokens[i].as_str());
        out.push(f);
        proof {
            assert(out.deep_view() =~= old_out.push(spec_from_wire(tokens.deep_view()[i as int])));
            assert(tokens.deep_view().take(i + 1).map_values(|t: Seq<char>| spec_from_wire(t))
                =~= old_out.push(spec_from_wire(tokens.deep_view()[i as int])));
        }
        i = i + 1;
    }
    proof {
        assert(tokens.deep_view().take(tokens@.len() as int) =~= tokens.deep_view());
    }
    out
}

/// Decodes a fetch result. Flags are parsed from their wire tokens and the
/// body is decoded as UTF-8; a record whose body is not valid text is
/// omitted from the result rather than failing the whole fetch — a
/// deliberate, lossy policy. The result keeps the server's record order.
pub fn decode_records(records: &Vec<RawRecord>) -> (out: Vec<Message>)
    ensures
        out.deep_view() == spec_decode_records(records.deep_view()),
{
    let mut out: Vec<Message> = Vec::new();
    let mut i: usize = 0;
    while i < records.len()
        invariant
            i <= records@.len(),
            out.deep_view() == spec_decode_records(records.deep_view().take(i as int)),
        decreases records@.len() - i,
    {
        let ghost old_out = out.deep_view();
        let r = &records[i];
        match utf8_to_string(&r.body) {
            Some(body) => {
                let flags = parse_flags(&r.flags);
                out.push(Message { body, uid: r.uid, size: r.size, flags });
                proof {
                    assert(out.deep_view() =~= old_out.push(
                        spec_decode_record(records.deep_view()[i as int]),
                    ));
                }
            },
            None => {},
        }
        proof {
            assert(records.deep_view().take(i + 1).drop_last() =~= records.deep_view().take(
                i as int,
            ));
            assert(records.deep_view().take(i + 1).last() == records.deep_view()[i as int]);
        }
        i = i + 1;
    }
    proof {
        assert(records.deep_view().take(records@.len() as int) =~= records.deep_view());
    }
    out
}

} // verus!
