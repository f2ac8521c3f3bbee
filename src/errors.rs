use vstd::prelude::*;

verus! {

/// Status of a call whose caller-supplied buffer was too small.
pub const ERROR_INSUFFICIENT_BUFFER: u32 = 122;

/// Status of an enumeration that has no further item.
pub const ERROR_NO_MORE_ITEMS: u32 = 259;

pub const ERROR_EVT_INVALID_CHANNEL_PATH: u32 = 15000;
pub const ERROR_EVT_INVALID_QUERY: u32 = 15001;
pub const ERROR_EVT_PUBLISHER_METADATA_NOT_FOUND: u32 = 15002;
pub const ERROR_EVT_EVENT_TEMPLATE_NOT_FOUND: u32 = 15003;
pub const ERROR_EVT_INVALID_PUBLISHER_NAME: u32 = 15004;
pub const ERROR_EVT_INVALID_EVENT_DATA: u32 = 15005;
pub const ERROR_EVT_CHANNEL_NOT_FOUND: u32 = 15007;
pub const ERROR_EVT_MALFORMED_XML_TEXT: u32 = 15008;
pub const ERROR_EVT_SUBSCRIPTION_TO_DIRECT_CHANNEL: u32 = 15009;
pub const ERROR_EVT_CONFIGURATION_ERROR: u32 = 15010;
pub const ERROR_EVT_QUERY_RESULT_STALE: u32 = 15011;
pub const ERROR_EVT_QUERY_RESULT_INVALID_POSITION: u32 = 15012;
pub const ERROR_EVT_NON_VALIDATING_MSXML: u32 = 15013;
pub const ERROR_EVT_FILTER_ALREADYSCOPED: u32 = 15014;
pub const ERROR_EVT_FILTER_NOTELTSET: u32 = 15015;
pub const ERROR_EVT_FILTER_INVARG: u32 = 15016;
pub const ERROR_EVT_FILTER_INVTEST: u32 = 15017;
pub const ERROR_EVT_FILTER_INVTYPE: u32 = 15018;
pub const ERROR_EVT_FILTER_PARSEERR: u32 = 15019;
pub const ERROR_EVT_FILTER_UNSUPPORTEDOP: u32 = 15020;
pub const ERROR_EVT_FILTER_UNEXPECTEDTOKEN: u32 = 15021;
pub const ERROR_EVT_INVALID_OPERATION_OVER_ENABLED_DIRECT_CHANNEL: u32 = 15022;
pub const ERROR_EVT_INVALID_CHANNEL_PROPERTY_VALUE: u32 = 15023;
pub const ERROR_EVT_INVALID_PUBLISHER_PROPERTY_VALUE: u32 = 15024;
pub const ERROR_EVT_CHANNEL_CANNOT_ACTIVATE: u32 = 15025;
pub const ERROR_EVT_FILTER_TOO_COMPLEX: u32 = 15026;
pub const ERROR_EVT_MESSAGE_NOT_FOUND: u32 = 15027;
pub const ERROR_EVT_MESSAGE_ID_NOT_FOUND: u32 = 15028;
pub const ERROR_EVT_UNRESOLVED_VALUE_INSERT: u32 = 15029;
pub const ERROR_EVT_UNRESOLVED_PARAMETER_INSERT: u32 = 15030;
pub const ERROR_EVT_MAX_INSERTS_REACHED: u32 = 15031;
pub const ERROR_EVT_EVENT_DEFINITION_NOT_FOUND: u32 = 15032;
pub const ERROR_EVT_MESSAGE_LOCALE_NOT_FOUND: u32 = 15033;
pub const ERROR_EVT_VERSION_TOO_OLD: u32 = 15034;
pub const ERROR_EVT_VERSION_TOO_NEW: u32 = 15035;
pub const ERROR_EVT_CANNOT_OPEN_CHANNEL_OF_QUERY: u32 = 15036;
pub const ERROR_EVT_PUBLISHER_DISABLED: u32 = 15037;
pub const ERROR_EVT_FILTER_OUT_OF_RANGE: u32 = 15038;

/// A failure of the event-log service, classified.
#[derive(Debug, PartialEq, Eq)]
pub enum WinEvtError {
    /// End of an enumeration: surfaced as the end of a sequence, never as a failure.
    NoMoreItems,
    /// The buffer handed to the service was too small; consumed by the growth protocol.
    InsufficientBuffer,
    /// A text or value payload could not be interpreted.
    InvalidEncoding,
    /// A status of the service's own catalog, with its fixed message.
    KnownOsError { code: u32, message: &'static str },
    /// A status outside the catalog, with the service's extended status text.
    ExtendedOsError { code: u32, message: String },
    /// A status outside the catalog with no extended text.
    GenericOsError { code: u32 },
    /// The service asked for a buffer larger than the configured maximum.
    BufferLimitExceeded { required: usize, limit: usize },
    /// Releasing a handle failed.
    ReleaseFailed { code: u32 },
}

/// The fixed message of each status in the service's catalog.
pub open spec fn known_message(code: u32) -> Option<&'static str> {
    match code {
        ERROR_EVT_INVALID_CHANNEL_PATH => Some("invalid channel path"),
        ERROR_EVT_INVALID_QUERY => Some("invalid query"),
        ERROR_EVT_PUBLISHER_METADATA_NOT_FOUND => Some("publisher metadata not found"),
        ERROR_EVT_EVENT_TEMPLATE_NOT_FOUND => Some("event template not found"),
        ERROR_EVT_INVALID_PUBLISHER_NAME => Some("invalid publisher name"),
        ERROR_EVT_INVALID_EVENT_DATA => Some("invalid event data"),
        ERROR_EVT_CHANNEL_NOT_FOUND => Some("channel not found"),
        ERROR_EVT_MALFORMED_XML_TEXT => Some("malformed xml text"),
        ERROR_EVT_SUBSCRIPTION_TO_DIRECT_CHANNEL => Some("subscription to direct channel"),
        ERROR_EVT_CONFIGURATION_ERROR => Some("configuration error"),
        ERROR_EVT_QUERY_RESULT_STALE => Some("query result stale"),
        ERROR_EVT_QUERY_RESULT_INVALID_POSITION => Some("query result invalid position"),
        ERROR_EVT_NON_VALIDATING_MSXML => Some("non validating msxml"),
        ERROR_EVT_FILTER_ALREADYSCOPED => Some("filter alreadyscoped"),
        ERROR_EVT_FILTER_NOTELTSET => Some("filter noteltset"),
        ERROR_EVT_FILTER_INVARG => Some("filter invarg"),
        ERROR_EVT_FILTER_INVTEST => Some("filter invtest"),
        ERROR_EVT_FILTER_INVTYPE => Some("filter invtype"),
        ERROR_EVT_FILTER_PARSEERR => Some("filter parseerr"),
        ERROR_EVT_FILTER_UNSUPPORTEDOP => Some("filter unsupportedop"),
        ERROR_EVT_FILTER_UNEXPECTEDTOKEN => Some("filter unexpectedtoken"),
        ERROR_EVT_INVALID_OPERATION_OVER_ENABLED_DIRECT_CHANNEL => Some("invalid operation over enabled direct channel"),
        ERROR_EVT_INVALID_CHANNEL_PROPERTY_VALUE => Some("invalid channel property value"),
        ERROR_EVT_INVALID_PUBLISHER_PROPERTY_VALUE => Some("invalid publisher property value"),
        ERROR_EVT_CHANNEL_CANNOT_ACTIVATE => Some("channel cannot activate"),
        ERROR_EVT_FILTER_TOO_COMPLEX => Some("filter too complex"),
        ERROR_EVT_MESSAGE_NOT_FOUND => Some("message not found"),
        ERROR_EVT_MESSAGE_ID_NOT_FOUND => Some("message id not found"),
        ERROR_EVT_UNRESOLVED_VALUE_INSERT => Some("unresolved value insert"),
        ERROR_EVT_UNRESOLVED_PARAMETER_INSERT => Some("unresolved parameter insert"),
        ERROR_EVT_MAX_INSERTS_REACHED => Some("max inserts reached"),
        ERROR_EVT_EVENT_DEFINITION_NOT_FOUND => Some("event definition not found"),
        ERROR_EVT_MESSAGE_LOCALE_NOT_FOUND => Some("message locale not found"),
        ERROR_EVT_VERSION_TOO_OLD => Some("version too old"),
        ERROR_EVT_VERSION_TOO_NEW => Some("version too new"),
        ERROR_EVT_CANNOT_OPEN_CHANNEL_OF_QUERY => Some("cannot open channel of query"),
        ERROR_EVT_PUBLISHER_DISABLED => Some("publisher disabled"),
        ERROR_EVT_FILTER_OUT_OF_RANGE => Some("filter out of range"),
        _ => None,
    }
}

/// What a raw status means, given the extended status text (if one was asked for).
pub open spec fn classified(code: u32, extended: Option<Seq<char>>) -> WinEvtErrorKind {
    if code == ERROR_NO_MORE_ITEMS {
        WinEvtErrorKind::NoMoreItems
    } else if code == ERROR_INSUFFICIENT_BUFFER {
        WinEvtErrorKind::InsufficientBuffer
    } else if known_message(code) is Some {
        WinEvtErrorKind::Known { code, message: known_message(code)->0@ }
    } else if extended is Some && extended->0.len() > 0 {
        WinEvtErrorKind::Extended { code, message: extended->0 }
    } else {
        WinEvtErrorKind::Generic { code }
    }
}

/// What a raw status means once it reaches a caller. "Buffer too small" is a
/// signal the growth protocol consumes, so outside it that status is an
/// ordinary failure without a catalog message.
pub open spec fn surfaced_error(code: u32, extended: Option<Seq<char>>) -> WinEvtErrorKind {
    if code == ERROR_INSUFFICIENT_BUFFER {
        WinEvtErrorKind::Generic { code }
    } else {
        classified(code, extended)
    }
}

/// The mathematical value of a [`WinEvtError`]: its variant with text as characters.
pub ghost enum WinEvtErrorKind {
    NoMoreItems,
    InsufficientBuffer,
    InvalidEncoding,
    Known { code: u32, message: Seq<char> },
    Extended { code: u32, message: Seq<char> },
    Generic { code: u32 },
    BufferLimitExceeded { required: usize, limit: usize },
    ReleaseFailed { code: u32 },
}

impl View for WinEvtError {
    type V = WinEvtErrorKind;

    open spec fn view(&self) -> WinEvtErrorKind {
        match self {
            WinEvtError::NoMoreItems => WinEvtErrorKind::NoMoreItems,
            WinEvtError::InsufficientBuffer => WinEvtErrorKind::InsufficientBuffer,
            WinEvtError::InvalidEncoding => WinEvtErrorKind::InvalidEncoding,
            WinEvtError::KnownOsError { code, message } => WinEvtErrorKind::Known {
                code: *code,
                message: message@,
            },
            WinEvtError::ExtendedOsError { code, message } => WinEvtErrorKind::Extended {
                code: *code,
                message: message@,
            },
            WinEvtError::GenericOsError { code } => WinEvtErrorKind::Generic { code: *code },
            WinEvtError::BufferLimitExceeded { required, limit } => {
                WinEvtErrorKind::BufferLimitExceeded { required: *required, limit: *limit }
            },
            WinEvtError::ReleaseFailed { code } => WinEvtErrorKind::ReleaseFailed { code: *code },
        }
    }
}

/// The view of an optional text.
pub open spec fn opt_text(t: Option<String>) -> Option<Seq<char>> {
    match t {
        Some(s) => Some(s@),
        None => None,
    }
}

/// Looks a status up in the service's catalog.
pub fn known_status_message(code: u32) -> (r: Option<&'static str>)
    ensures
        r == known_message(code),
{
    match code {
            15000 => Some("invalid channel path"),
            15001 => Some("invalid query"),
            15002 => Some("publisher metadata not found"),
            15003 => Some("event template not found"),
            15004 => Some("invalid publisher name"),
            15005 => Some("invalid event data"),
            15007 => Some("channel not found"),
            15008 => Some("malformed xml text"),
            15009 => Some("subscription to direct channel"),
            15010 => Some("configuration error"),
            15011 => Some("query result stale"),
            15012 => Some("query result invalid position"),
            15013 => Some("non validating msxml"),
            15014 => Some("filter alreadyscoped"),
            15015 => Some("filter noteltset"),
            15016 => Some("filter invarg"),
            15017 => Some("filter invtest"),
            15018 => Some("filter invtype"),
            15019 => Some("filter parseerr"),
            15020 => Some("filter unsupportedop"),
            15021 => Some("filter unexpectedtoken"),
            15022 => Some("invalid operation over enabled direct channel"),
            15023 => Some("invalid channel property value"),
            15024 => Some("invalid publisher property value"),
            15025 => Some("channel cannot activate"),
            15026 => Some("filter too complex"),
            15027 => Some("message not found"),
            15028 => Some("message id not found"),
            15029 => Some("unresolved value insert"),
            15030 => Some("unresolved parameter insert"),
            15031 => Some("max inserts reached"),
            15032 => Some("event definition not found"),
            15033 => Some("message locale not found"),
            15034 => Some("version too old"),
            15035 => Some("version too new"),
            15036 => Some("cannot open channel of query"),
            15037 => Some("publisher disabled"),
            15038 => Some("filter out of range"),
            _ => None,
    }
}

/// Whether classifying `code` needs the service's extended status text: only
/// statuses outside the catalog (and other than the two protocol signals) do.
pub fn needs_extended_status(code: u32) -> (r: bool)
    ensures
        r == (code != ERROR_NO_MORE_ITEMS && code != ERROR_INSUFFICIENT_BUFFER
            && known_message(code) is None),
{
    code != ERROR_NO_MORE_ITEMS && code != ERROR_INSUFFICIENT_BUFFER
        && known_status_message(code).is_none()
}

impl WinEvtError {
    /// The error a failed call reports to its caller: as
    /// [`WinEvtError::from_dword`], but never `InsufficientBuffer`.
    pub fn from_failed_call(errno: u32, extended: Option<String>) -> (r: WinEvtError)
        ensures
            r@ == surfaced_error(errno, opt_text(extended)),
            !(r is InsufficientBuffer),
    {
        if errno == ERROR_INSUFFICIENT_BUFFER {
            WinEvtError::GenericOsError { code: errno }
        } else {
            WinEvtError::from_dword(errno, extended)
        }
    }

    /// Classifies a raw status. `extended` is the service's extended status
    /// text, looked up by the caller when [`needs_extended_status`] says so; it is
    /// used only for a status outside the catalog, and only when not empty.
    pub fn from_dword(errno: u32, extended: Option<String>) -> (r: WinEvtError)
        ensures
            r@ == classified(errno, opt_text(extended)),
    {
        if errno == ERROR_NO_MORE_ITEMS {
            WinEvtError::NoMoreItems
        } else if errno == ERROR_INSUFFICIENT_BUFFER {
            WinEvtError::InsufficientBuffer
        } else {
            match known_status_message(errno) {
                Some(message) => WinEvtError::KnownOsError { code: errno, message },
                None => match extended {
                    Some(message) => {
                        if message.as_str().unicode_len() > 0 {
                            WinEvtError::ExtendedOsError { code: errno, message }
                        } else {
                            WinEvtError::GenericOsError { code: errno }
                        }
                    },
                    None => WinEvtError::GenericOsError { code: errno },
                },
            }
        }
    }
}

} // verus!

verus! {

/// The three ways a call of the service ends when it does not succeed.
#[derive(Debug)]
pub enum WinError {
    NoMoreItems,
    InsufficientBuffer,
    /// Any other failure.
    Other(WinEvtError),
}

impl WinError {
    /// The error this stands for.
    pub fn into_err(self) -> (r: WinEvtError)
        ensures
            self is NoMoreItems ==> r@ == WinEvtErrorKind::NoMoreItems,
            self is InsufficientBuffer ==> r@ == WinEvtErrorKind::InsufficientBuffer,
            self is Other ==> r == self->Other_0,
    {
        match self {
            WinError::NoMoreItems => WinEvtError::from_dword(ERROR_NO_MORE_ITEMS, None),
            WinError::InsufficientBuffer => WinEvtError::from_dword(ERROR_INSUFFICIENT_BUFFER, None),
            WinError::Other(e) => e,
        }
    }
}

/// The extended status text held by the first `used` units of a filled buffer;
/// nothing when the service wrote none or `used` is beyond the buffer.
pub fn extended_status_text(units: &[u16], used: usize) -> (r: Option<String>)
    ensures
        used == 0 || used > units@.len() <==> r is None,
        r is Some ==> r->0@ == crate::text::utf16_lossy(
            crate::text::without_terminator(units@.take(used as int)),
        ),
{
    if used == 0 {
        return None;
    }
    match crate::text::text_from_units(units, used) {
        Ok(s) => Some(s),
        Err(_) => None,
    }
}

} // verus!
