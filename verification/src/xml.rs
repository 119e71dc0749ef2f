//! Tokenizing a map file: the XML reader turns its bytes into element
//! starts, element ends and texts, which the map reader then takes in turn.
use vstd::prelude::*;
use quick_xml::errors::Error;
use quick_xml::events::BytesStart;
use quick_xml::events::Event::{CData, Empty, End, Eof, Start, Text};
use quick_xml::reader::Reader;
use crate::parser::{EventView, ParseError, XmlAttribute, XmlElement, XmlEvent};

verus! {

#[verifier::external_type_specification]
#[verifier::external_body]
#[verifier::reject_recursive_types(R)]
pub struct ExReader<R>(quick_xml::reader::Reader<R>);

#[verifier::external_type_specification]
#[verifier::external_body]
pub struct ExXmlError(quick_xml::errors::Error);

/// One read of the XML reader, as the map reader sees it: an event it
/// takes, or one it passes over (a comment, a declaration, a processing
/// instruction, a document type or an entity reference).
pub ghost enum TokenView {
    Event(EventView),
    Skip,
}

/// What one read of the XML reader gives: an element start, an empty
/// element, an element end, a text (character data included), a read to
/// pass over, or the end of the input.
pub enum Token {
    Start(XmlElement),
    Empty(XmlElement),
    Close(Vec<u8>),
    Text(Vec<u8>),
    Skip,
    End,
}

/// What the XML reader, with text trimming switched on, reads from a text:
/// the reads before it stops (element names, attribute keys and values and
/// texts as raw bytes, attribute numbers left out), and whether it stops at
/// an error rather than at the end of the input.
pub uninterp spec fn xml_tokens(text: Seq<u8>) -> (Seq<TokenView>, bool);

/// The reads that a reader still has to give.
pub uninterp spec fn reader_tokens(r: Reader<&[u8]>) -> Seq<TokenView>;

/// Whether a reader ends in an error once its remaining reads are given.
pub uninterp spec fn reader_fails(r: Reader<&[u8]>) -> bool;

/// `Reader::from_reader` on the text, with text trimming switched on
/// through `config_mut().trim_text(true)`: a reader that still has all the
/// reads of the text to give.
#[verifier::external_body]
fn open_reader(text: &[u8]) -> (r: Reader<&[u8]>)
    ensures
        reader_tokens(r) == xml_tokens(text@).0,
        reader_fails(r) == xml_tokens(text@).1,
{
    let mut reader = Reader::from_reader(text);
    reader.config_mut().trim_text(true);
    reader
}

/// A read agrees with its model.
pub open spec fn token_is(t: Token, v: TokenView) -> bool {
    match (t, v) {
        (Token::Start(e), TokenView::Event(ev)) => ev == EventView::Start(e@),
        (Token::Empty(e), TokenView::Event(ev)) => ev == EventView::Empty(e@),
        (Token::Close(n), TokenView::Event(ev)) => ev == EventView::End(n@),
        (Token::Text(t), TokenView::Event(ev)) => ev == EventView::Text(t@),
        (Token::Skip, TokenView::Skip) => true,
        _ => false,
    }
}

/// `Reader::read_event_into`, the event converted to owned bytes: the next
/// of the reader's reads; once they are given, the end of the input, or the
/// error that ends them.
#[verifier::external_body]
fn next_token(reader: &mut Reader<&[u8]>) -> (t: Result<Token, Error>)
    ensures
        reader_tokens(*old(reader)).len() > 0 ==> {
            &&& t matches Ok(tok) && token_is(tok, reader_tokens(*old(reader))[0])
            &&& reader_tokens(*final(reader)) == reader_tokens(*old(reader)).drop_first()
            &&& reader_fails(*final(reader)) == reader_fails(*old(reader))
        },
        reader_tokens(*old(reader)).len() == 0 ==> if reader_fails(*old(reader)) {
            t is Err
        } else {
            t matches Ok(Token::End)
        },
{
    let element = |e: &BytesStart| XmlElement { name: e.name().0.to_vec(), attributes: e.attributes().flatten().map(|a| XmlAttribute { key: a.key.0.to_vec(), value: a.value.to_vec(), number: None }).collect() };
    Ok(match reader.read_event_into(&mut Vec::new())? {
        Start(e) => Token::Start(element(&e)),
        Empty(e) => Token::Empty(element(&e)),
        End(e) => Token::Close(e.name().0.to_vec()),
        Text(e) => Token::Text(e.to_vec()),
        CData(e) => Token::Text(e.to_vec()),
        Eof => Token::End,
        _ => Token::Skip,
    })
}

/// The events among some reads, in order.
pub open spec fn token_events(ts: Seq<TokenView>) -> Seq<EventView>
    decreases ts.len(),
{
    if ts.len() == 0 {
        Seq::empty()
    } else {
        match ts.last() {
            TokenView::Event(e) => token_events(ts.drop_last()).push(e),
            TokenView::Skip => token_events(ts.drop_last()),
        }
    }
}

/// The events of a text, or none when the XML reader reports an error.
pub open spec fn spec_tokenize(text: Seq<u8>) -> Option<Seq<EventView>> {
    if xml_tokens(text).1 {
        None
    } else {
        Some(token_events(xml_tokens(text).0))
    }
}

/// The element starts, element ends and texts of an XML text, in order; an
/// error of the XML reader makes the text malformed.
pub fn tokenize(text: &[u8]) -> (r: Result<Vec<XmlEvent>, ParseError>)
    ensures
        match r {
            Ok(v) => spec_tokenize(text@) == Some(v@.map_values(|e: XmlEvent| e@)),
            Err(e) => spec_tokenize(text@) is None && e == ParseError::MalformedXml,
        },
{
    let mut reader = open_reader(text);
    let ghost all = xml_tokens(text@).0;
    let ghost fails = xml_tokens(text@).1;
    let ghost mut k: int = 0;
    let mut out: Vec<XmlEvent> = Vec::new();
    assert(all.skip(0) =~= all);
    assert(out@.map_values(|e: XmlEvent| e@) =~= token_events(all.take(0)));
    loop
        invariant
            all == xml_tokens(text@).0,
            fails == xml_tokens(text@).1,
            0 <= k <= all.len(),
            reader_tokens(reader) == all.skip(k),
            reader_fails(reader) == fails,
            out@.map_values(|e: XmlEvent| e@) == token_events(all.take(k)),
        decreases all.len() - k,
    {
        let ghost before = out@;
        let event = match next_token(&mut reader) {
            Err(_) => {
                return Err(ParseError::MalformedXml);
            },
            Ok(Token::End) => {
                assert(all.take(k) =~= all);
                return Ok(out);
            },
            Ok(Token::Skip) => None,
            Ok(Token::Start(e)) => Some(XmlEvent::Start(e)),
            Ok(Token::Empty(e)) => Some(XmlEvent::Empty(e)),
            Ok(Token::Close(n)) => Some(XmlEvent::End(n)),
            Ok(Token::Text(t)) => Some(XmlEvent::Text(t)),
        };
        assert(all.take(k + 1).drop_last() =~= all.take(k));
        assert(all.skip(k).drop_first() =~= all.skip(k + 1));
        if let Some(event) = event {
            out.push(event);
            assert(out@.map_values(|e: XmlEvent| e@) =~= before.map_values(|e: XmlEvent| e@).push(
                out@[out@.len() - 1]@,
            ));
        }
        proof {
            k = k + 1;
        }
    }
}

} // verus!
