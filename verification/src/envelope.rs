//! The uniform event envelope and its wire rendering.
//!
//! The envelope is a flat record with a fixed field set in a fixed order;
//! null-valued fields are emitted as JSON `null`, never omitted. Its JSON
//! rendering is the frozen contract consumed by workers in another
//! language, so `to_json` pins the exact character sequence.

use vstd::prelude::*;

use crate::json::{
    append_fields, append_quoted, spec_object, spec_quoted, FieldView, JsonField,
};
use crate::text::{spec_dec, u64_to_string};

verus! {

/// The `data` payload of an envelope: JSON `null` or a flat JSON object.
#[derive(Debug, Clone)]
pub enum EventData {
    Null,
    Object(Vec<JsonField>),
}

/// The mathematical value of an `EventData`.
#[verifier::ext_equal]
pub enum DataView {
    Null,
    Object(Seq<FieldView>),
}

impl View for EventData {
    type V = DataView;

    open spec fn view(&self) -> DataView {
        match self {
            EventData::Null => DataView::Null,
            EventData::Object(fs) => DataView::Object(fs@.map_values(|f: JsonField| f@)),
        }
    }
}

/// The uniform envelope published for every forwarded event.
#[derive(Debug, Clone)]
pub struct Envelope {
    /// Fresh UUID string, one per event.
    pub event_id: String,
    /// Canonical dotted event type, e.g. `guild.join`.
    pub event_type: String,
    /// The shard the event arrived on.
    pub shard_id: u64,
    /// Milliseconds since the Unix epoch at serialization time.
    pub timestamp: u64,
    /// Guild the event concerns, if any.
    pub guild_id: Option<String>,
    /// Channel the event concerns, if any.
    pub channel_id: Option<String>,
    /// User the event concerns, if any.
    pub user_id: Option<String>,
    /// Event-type-specific payload.
    pub data: EventData,
}

/// The mathematical value of an `Envelope`.
#[verifier::ext_equal]
pub struct EnvelopeView {
    pub event_id: Seq<char>,
    pub event_type: Seq<char>,
    pub shard_id: u64,
    pub timestamp: u64,
    pub guild_id: Option<Seq<char>>,
    pub channel_id: Option<Seq<char>>,
    pub user_id: Option<Seq<char>>,
    pub data: DataView,
}

/// The view of an optional string.
pub open spec fn opt_str_view(o: Option<String>) -> Option<Seq<char>> {
    match o {
        Option::None => Option::None,
        Option::Some(s) => Option::Some(s@),
    }
}

impl View for Envelope {
    type V = EnvelopeView;

    open spec fn view(&self) -> EnvelopeView {
        EnvelopeView {
            event_id: self.event_id@,
            event_type: self.event_type@,
            shard_id: self.shard_id,
            timestamp: self.timestamp,
            guild_id: opt_str_view(self.guild_id),
            channel_id: opt_str_view(self.channel_id),
            user_id: opt_str_view(self.user_id),
            data: self.data@,
        }
    }
}

/// The rendering of a nullable string field.
pub open spec fn spec_opt_json(o: Option<Seq<char>>) -> Seq<char> {
    match o {
        Option::None => "null"@,
        Option::Some(s) => spec_quoted(s),
    }
}

/// The rendering of the `data` payload.
pub open spec fn spec_data_json(d: DataView) -> Seq<char> {
    match d {
        DataView::Null => "null"@,
        DataView::Object(fs) => spec_object(fs),
    }
}

/// The exact JSON text of an envelope: the frozen wire contract.
pub open spec fn spec_envelope_json(e: EnvelopeView) -> Seq<char> {
    "{\"event_id\":"@ + spec_quoted(e.event_id)
        + ",\"event_type\":"@ + spec_quoted(e.event_type)
        + ",\"shard_id\":"@ + spec_dec(e.shard_id as int)
        + ",\"timestamp\":"@ + spec_dec(e.timestamp as int)
        + ",\"guild_id\":"@ + spec_opt_json(e.guild_id)
        + ",\"channel_id\":"@ + spec_opt_json(e.channel_id)
        + ",\"user_id\":"@ + spec_opt_json(e.user_id)
        + ",\"data\":"@ + spec_data_json(e.data)
        + "}"@
}

fn append_opt(out: &mut String, o: &Option<String>)
    ensures
        final(out)@ == old(out)@ + spec_opt_json(opt_str_view(*o)),
{
    match o {
        Option::None => out.append("null"),
        Option::Some(s) => append_quoted(out, s.as_str()),
    }
}

fn append_data(out: &mut String, d: &EventData)
    ensures
        final(out)@ == old(out)@ + spec_data_json(d@),
{
    match d {
        EventData::Null => out.append("null"),
        EventData::Object(fs) => {
            proof {
                reveal_strlit("{");
                reveal_strlit("}");
            }
            out.append("{");
            append_fields(out, fs);
            out.append("}");
            proof {
                assert(out@ =~= old(out)@ + spec_data_json(d@));
            }
        },
    }
}

impl Envelope {
    /// Render the envelope as its exact wire JSON.
    pub fn to_json(&self) -> (r: String)
        ensures
            r@ == spec_envelope_json(self@),
    {
        let mut out = String::from_str("{\"event_id\":");
        append_quoted(&mut out, self.event_id.as_str());
        out.append(",\"event_type\":");
        append_quoted(&mut out, self.event_type.as_str());
        out.append(",\"shard_id\":");
        let shard_s = u64_to_string(self.shard_id);
        out.append(shard_s.as_str());
        out.append(",\"timestamp\":");
        let ts_s = u64_to_string(self.timestamp);
        out.append(ts_s.as_str());
        out.append(",\"guild_id\":");
        append_opt(&mut out, &self.guild_id);
        out.append(",\"channel_id\":");
        append_opt(&mut out, &self.channel_id);
        out.append(",\"user_id\":");
        append_opt(&mut out, &self.user_id);
        out.append(",\"data\":");
        append_data(&mut out, &self.data);
        out.append("}");
        proof {
            assert(out@ =~= spec_envelope_json(self@));
        }
        out
    }
}

} // verus!
