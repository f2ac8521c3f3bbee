use vstd::prelude::*;

use crate::errors::{opt_text, WinEvtError};
use crate::fetch::{FetchOutcome, FetchStep};
use crate::handle::ResourceHandle;
use crate::pub_metadata::PubMetadata;
use crate::pub_metadata_fields::{
    HELP_LINK, MESSAGE_FILE_PATH, PARAMETER_FILE_PATH, PUBLISHER_GUID, PUBLISHER_MESSAGE_ID,
    RESOURCE_FILE_PATH,
};
use crate::variant::{
    decode_variant, decoded, format_guid, guid_text, owned_handles, record_view, words_for, Variant,
    VariantBuf,
};

verus! {

/// Locale identifier of US English with the default sort order.
pub const ENGLISH_US_LCID: u32 = 0x0409;

/// The raw values of a sequence of handles.
pub open spec fn handle_values(v: Seq<ResourceHandle>) -> Seq<u64> {
    Seq::new(v.len(), |i: int| v[i]@)
}

/// The text a field answered, if it answered text.
pub open spec fn text_value(a: Result<Option<Variant>, WinEvtError>) -> Option<Seq<char>> {
    match a {
        Ok(Some(Variant::String(s))) => Some(s@),
        Ok(Some(Variant::AnsiStr(s))) => Some(s@),
        _ => None,
    }
}

/// The number a field answered, if it answered an unsigned 32-bit number.
pub open spec fn u32_value(a: Result<Option<Variant>, WinEvtError>) -> Option<u32> {
    match a {
        Ok(Some(Variant::Uint32(x))) => Some(x),
        _ => None,
    }
}

/// The canonical text of the GUID a field answered, if it answered one.
pub open spec fn guid_value(a: Result<Option<Variant>, WinEvtError>) -> Option<Seq<char>> {
    match a {
        Ok(Some(Variant::Guid(g))) => Some(guid_text(g@)),
        _ => None,
    }
}

/// The handles a field's answer owns.
pub open spec fn answer_handles(a: Result<Option<Variant>, WinEvtError>) -> Seq<u64> {
    match a {
        Ok(Some(v)) => owned_handles(v@),
        _ => Seq::empty(),
    }
}

/// Hands the handles `v` owns over to `release`.
fn release_handles(v: Variant, release: &mut Vec<ResourceHandle>)
    ensures
        handle_values(final(release)@) == handle_values(old(release)@) + owned_handles(v@),
{
    let mut owned = v.into_handles();
    let ghost before = release@;
    release.append(&mut owned);
    proof {
        assert(handle_values(release@) =~= handle_values(before) + owned_handles(v@));
    }
}

/// The text of a field, or `None`; handles the answer owned go to `release`.
pub fn get_str(answer: Result<Option<Variant>, WinEvtError>, release: &mut Vec<ResourceHandle>) -> (r:
    Option<String>)
    ensures
        opt_text(r) == text_value(answer),
        handle_values(final(release)@) == handle_values(old(release)@) + answer_handles(answer),
{
    match answer {
        Ok(Some(v)) => match v {
            Variant::String(s) => Some(s),
            Variant::AnsiStr(s) => Some(s),
            other => {
                release_handles(other, release);
                None
            },
        },
        _ => {
            proof {
                assert(handle_values(release@) =~= handle_values(release@) + Seq::<u64>::empty());
            }
            None
        },
    }
}

/// The unsigned 32-bit number of a field, or `None`; handles the answer
/// owned go to `release`.
pub fn get_u32(answer: Result<Option<Variant>, WinEvtError>, release: &mut Vec<ResourceHandle>) -> (r:
    Option<u32>)
    ensures
        r == u32_value(answer),
        handle_values(final(release)@) == handle_values(old(release)@) + answer_handles(answer),
{
    match answer {
        Ok(Some(v)) => match v {
            Variant::Uint32(x) => Some(x),
            other => {
                release_handles(other, release);
                None
            },
        },
        _ => {
            proof {
                assert(handle_values(release@) =~= handle_values(release@) + Seq::<u64>::empty());
            }
            None
        },
    }
}

/// The canonical text of a field's GUID, or `None`; handles the answer owned
/// go to `release`.
pub fn get_guid(answer: Result<Option<Variant>, WinEvtError>, release: &mut Vec<ResourceHandle>) -> (r:
    Option<String>)
    ensures
        opt_text(r) == guid_value(answer),
        handle_values(final(release)@) == handle_values(old(release)@) + answer_handles(answer),
{
    match answer {
        Ok(Some(v)) => match v {
            Variant::Guid(g) => Some(format_guid(&g)),
            other => {
                release_handles(other, release);
                None
            },
        },
        _ => {
            proof {
                assert(handle_values(release@) =~= handle_values(release@) + Seq::<u64>::empty());
            }
            None
        },
    }
}

/// Reads the metadata of one publisher, one property at a time.
///
/// For each property the caller asks the service into [`PubMetadataFetcher::words_mut`],
/// hands the answer to [`PubMetadataFetcher::get_prop`] until it is ready,
/// and decodes it with [`PubMetadataFetcher::decode_prop`].
pub struct PubMetadataFetcher {
    name: String,
    handle: ResourceHandle,
    buf: VariantBuf,
}

impl PubMetadataFetcher {
    /// The publisher's name.
    pub closed spec fn publisher(&self) -> String {
        self.name
    }

    /// The raw value of the metadata handle.
    pub closed spec fn handle_value(&self) -> u64 {
        self.handle@
    }

    /// The buffer property values are written into.
    pub closed spec fn buffer(&self) -> VariantBuf {
        self.buf
    }

    /// A fetcher over an open metadata handle of publisher `name`.
    pub fn new(name: String, handle: ResourceHandle) -> (r: PubMetadataFetcher)
        ensures
            r.publisher() == name,
            r.handle_value() == handle@,
    {
        PubMetadataFetcher { name, handle, buf: VariantBuf::sized(4096) }
    }

    /// The publisher's name.
    pub fn name(&self) -> (r: &String)
        ensures
            *r == self.publisher(),
    {
        &self.name
    }

    /// The raw metadata handle, to hand to the service.
    pub fn raw_handle(&self) -> (r: u64)
        ensures
            r == self.handle_value(),
    {
        self.handle.raw()
    }

    /// The memory the service writes a property into, in 8-byte words.
    pub fn words_mut(&mut self) -> (r: &mut Vec<u64>)
        ensures
            *r == old(self).buffer().buffer().units,
            final(self).buffer().buffer().units == *final(r),
            final(self).buffer().buffer().limit == old(self).buffer().buffer().limit,
            final(self).handle_value() == old(self).handle_value(),
    {
        self.buf.words_mut()
    }

    /// One step of fetching a property, with sizes in bytes: grows the buffer
    /// and retries when it was too small.
    pub fn get_prop(&mut self, outcome: FetchOutcome) -> (r: FetchStep)
        ensures
            final(self).handle_value() == old(self).handle_value(),
            final(self).buffer().buffer().limit == old(self).buffer().buffer().limit,
            !(outcome is TooSmall) ==> final(self).buffer().buffer() == old(self).buffer().buffer(),
            outcome is TooSmall && words_for(outcome->required as nat) <= old(
                self,
            ).buffer().buffer().limit ==> r is Retry && final(self).buffer().buffer().units@.len()
                * 8 >= outcome->required,
            outcome is TooSmall && words_for(outcome->required as nat) > old(
                self,
            ).buffer().buffer().limit ==> r is Failed,
            outcome is Filled && outcome->used <= old(self).buffer().buffer().units@.len() * 8
                ==> r == (FetchStep::Ready { used: outcome->used }),
            outcome is Filled && outcome->used > old(self).buffer().buffer().units@.len() * 8
                ==> r is Failed,
            outcome is NoMoreItems ==> r is Exhausted,
            outcome is Failed ==> r == (FetchStep::Failed { error: outcome->error }),
    {
        self.buf.on_outcome(outcome)
    }

    /// Decodes a property the service wrote at the start of `b`, whose first
    /// byte is at address `base`.
    pub fn decode_prop(b: &[u8], base: u64) -> (r: Result<Option<Variant>, WinEvtError>)
        ensures
            decoded(r) == record_view(b@, base, 0),
    {
        decode_variant(b, base, 0)
    }

    /// The properties [`PubMetadataFetcher::get_metadata`] reads, in the order
    /// of its arguments.
    pub fn metadata_field_ids() -> (r: Vec<u32>)
        ensures
            r@ == seq![
                PUBLISHER_GUID,
                RESOURCE_FILE_PATH,
                PARAMETER_FILE_PATH,
                MESSAGE_FILE_PATH,
                HELP_LINK,
                PUBLISHER_MESSAGE_ID,
            ],
    {
        let r = vec![
            PUBLISHER_GUID,
            RESOURCE_FILE_PATH,
            PARAMETER_FILE_PATH,
            MESSAGE_FILE_PATH,
            HELP_LINK,
            PUBLISHER_MESSAGE_ID,
        ];
        proof {
            assert(r@ =~= seq![
                PUBLISHER_GUID,
                RESOURCE_FILE_PATH,
                PARAMETER_FILE_PATH,
                MESSAGE_FILE_PATH,
                HELP_LINK,
                PUBLISHER_MESSAGE_ID,
            ]);
        }
        r
    }

    /// Assembles a publisher's metadata from what each property answered. A
    /// property that failed or answered another type is absent; handles the
    /// answers owned are given back, in order, to be released.
    pub fn get_metadata(
        guid: Result<Option<Variant>, WinEvtError>,
        resource_file_path: Result<Option<Variant>, WinEvtError>,
        parameter_file_path: Result<Option<Variant>, WinEvtError>,
        message_file_path: Result<Option<Variant>, WinEvtError>,
        help_link: Result<Option<Variant>, WinEvtError>,
        message_id: Result<Option<Variant>, WinEvtError>,
    ) -> (r: (PubMetadata, Vec<ResourceHandle>))
        ensures
            opt_text(r.0.guid) == guid_value(guid),
            opt_text(r.0.resource_file_path) == text_value(resource_file_path),
            opt_text(r.0.parameter_file_path) == text_value(parameter_file_path),
            opt_text(r.0.message_file_path) == text_value(message_file_path),
            opt_text(r.0.help_link) == text_value(help_link),
            r.0.message_id == u32_value(message_id),
            r.0.channels@.len() == 0 && r.0.levels@.len() == 0 && r.0.tasks@.len() == 0
                && r.0.opcodes@.len() == 0 && r.0.keywords@.len() == 0,
            handle_values(r.1@) == answer_handles(guid) + answer_handles(resource_file_path)
                + answer_handles(parameter_file_path) + answer_handles(message_file_path)
                + answer_handles(help_link) + answer_handles(message_id),
    {
        let mut release: Vec<ResourceHandle> = Vec::new();
        proof {
            assert(handle_values(release@) =~= Seq::<u64>::empty());
        }
        let ghost (g, rf, pf, mf, hl, mi) = (
            guid,
            resource_file_path,
            parameter_file_path,
            message_file_path,
            help_link,
            message_id,
        );
        let guid = get_guid(guid, &mut release);
        let resource_file_path = get_str(resource_file_path, &mut release);
        let parameter_file_path = get_str(parameter_file_path, &mut release);
        let message_file_path = get_str(message_file_path, &mut release);
        let help_link = get_str(help_link, &mut release);
        let message_id = get_u32(message_id, &mut release);
        proof {
            assert(handle_values(release@) =~= answer_handles(g) + answer_handles(rf)
                + answer_handles(pf) + answer_handles(mf) + answer_handles(hl) + answer_handles(
                mi,
            ));
        }
        let meta = PubMetadata {
            guid,
            resource_file_path,
            parameter_file_path,
            message_file_path,
            help_link,
            message_id,
            channels: Vec::new(),
            levels: Vec::new(),
            tasks: Vec::new(),
            opcodes: Vec::new(),
            keywords: Vec::new(),
        };
        (meta, release)
    }

    /// Ends the fetcher, giving back its handle to be released.
    pub fn close(self) -> (r: ResourceHandle)
        ensures
            r@ == self.handle_value(),
    {
        self.handle
    }
}

} // verus!
