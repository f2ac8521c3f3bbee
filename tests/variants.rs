use win_events::errors::WinEvtError;
use win_events::fetch::{FetchOutcome, FetchStep};
use win_events::pub_metadata_fetcher::PubMetadataFetcher;
use win_events::pub_metadata_fields::{pub_meta_field, pub_meta_fields, HELP_LINK, PROPERTY_ID_END};
use win_events::handle::ResourceHandle;
use win_events::variant::{decode_variant, format_guid, Guid, SystemTime, Variant, VariantBuf};

const BASE: u64 = 0x10_000;

fn record(value: u64, count: u32, ty: u32) -> Vec<u8> {
    let mut b = Vec::new();
    b.extend_from_slice(&value.to_le_bytes());
    b.extend_from_slice(&count.to_le_bytes());
    b.extend_from_slice(&ty.to_le_bytes());
    b
}

fn decode(b: &[u8]) -> Result<Option<Variant>, WinEvtError> {
    decode_variant(b, BASE, 0)
}

#[test]
fn scalar_u32_round_trip() {
    assert_eq!(decode(&record(42, 0, 8)), Ok(Some(Variant::Uint32(42))));
}

#[test]
fn scalar_round_trips() {
    assert_eq!(decode(&record(0xFF, 0, 3)), Ok(Some(Variant::Int8(-1))));
    assert_eq!(decode(&record(200, 0, 4)), Ok(Some(Variant::Uint8(200))));
    assert_eq!(decode(&record(0xFFFE, 0, 5)), Ok(Some(Variant::Int16(-2))));
    assert_eq!(decode(&record(65535, 0, 6)), Ok(Some(Variant::Uint16(65535))));
    assert_eq!(decode(&record(0xFFFF_FFFD, 0, 7)), Ok(Some(Variant::Int32(-3))));
    assert_eq!(decode(&record(u64::MAX, 0, 9)), Ok(Some(Variant::Int64(-1))));
    assert_eq!(decode(&record(1 << 40, 0, 10)), Ok(Some(Variant::Uint64(1 << 40))));
    assert_eq!(decode(&record(1.5f32.to_bits() as u64, 0, 11)), Ok(Some(Variant::F32Bits(1.5f32.to_bits()))));
    assert_eq!(decode(&record(2.25f64.to_bits(), 0, 12)), Ok(Some(Variant::F64Bits(2.25f64.to_bits()))));
    assert_eq!(decode(&record(1, 0, 13)), Ok(Some(Variant::Bool(true))));
    assert_eq!(decode(&record(0, 0, 13)), Ok(Some(Variant::Bool(false))));
    assert_eq!(decode(&record(4096, 0, 16)), Ok(Some(Variant::SizeT(4096))));
    assert_eq!(decode(&record(132_000_000_000_000_000, 0, 17)), Ok(Some(Variant::Filetime(132_000_000_000_000_000))));
    assert_eq!(decode(&record(0xBEEF, 0, 20)), Ok(Some(Variant::HexInt32(0xBEEF))));
    assert_eq!(decode(&record(0xDEAD_BEEF_0000, 0, 21)), Ok(Some(Variant::HexInt64(0xDEAD_BEEF_0000))));
}

#[test]
fn guid_formats_canonically() {
    let mut b = record(BASE + 16, 0, 15);
    b.extend_from_slice(&0x1234_ABCDu32.to_le_bytes());
    b.extend_from_slice(&0x0A0Bu16.to_le_bytes());
    b.extend_from_slice(&0xC0DEu16.to_le_bytes());
    b.extend_from_slice(&[0x01, 0x23, 0x45, 0x67, 0x89, 0xAB, 0xCD, 0xEF]);
    let g = match decode(&b) {
        Ok(Some(Variant::Guid(g))) => g,
        other => panic!("unexpected {:?}", other),
    };
    assert_eq!(
        g,
        Guid { data1: 0x1234_ABCD, data2: 0x0A0B, data3: 0xC0DE, data4: [0x01, 0x23, 0x45, 0x67, 0x89, 0xAB, 0xCD, 0xEF] }
    );
    assert_eq!(format_guid(&g), "1234ABCD-0A0B-C0DE-0123-456789ABCDEF");
}

#[test]
fn guid_with_small_fields_keeps_leading_zeros() {
    let g = Guid { data1: 1, data2: 2, data3: 3, data4: [0, 0, 0, 0, 0, 0, 0, 4] };
    assert_eq!(format_guid(&g), "00000001-0002-0003-0000-000000000004");
}

#[test]
fn u16_array_keeps_order() {
    let mut b = record(BASE + 16, 3, 6 | 128);
    for x in [1u16, 2, 3] {
        b.extend_from_slice(&x.to_le_bytes());
    }
    assert_eq!(
        decode(&b),
        Ok(Some(Variant::Array(vec![Variant::Uint16(1), Variant::Uint16(2), Variant::Uint16(3)])))
    );
}

#[test]
fn string_array_follows_pointers() {
    let mut b = record(BASE + 16, 2, 1 | 128);
    b.extend_from_slice(&(BASE + 32).to_le_bytes());
    b.extend_from_slice(&(BASE + 38).to_le_bytes());
    for u in "ab\0".encode_utf16().chain("c\0".encode_utf16()) {
        b.extend_from_slice(&u.to_le_bytes());
    }
    assert_eq!(
        decode(&b),
        Ok(Some(Variant::Array(vec![Variant::String("ab".to_string()), Variant::String("c".to_string())])))
    );
}

#[test]
fn empty_and_bad_arrays() {
    assert_eq!(decode(&record(0, 0, 8 | 128)), Ok(Some(Variant::Array(vec![]))));
    assert_eq!(decode(&record(0, 2, 8 | 128)), Err(WinEvtError::InvalidEncoding));
    assert_eq!(decode(&record(BASE + 16, 1, 8 | 128)), Err(WinEvtError::InvalidEncoding));
    assert_eq!(decode(&record(BASE + 16, 1, 32 | 128)), Ok(None));
}

#[test]
fn nested_handle_is_released_once() {
    let v = decode(&record(0x77, 0, 32)).unwrap().unwrap();
    assert_eq!(v, Variant::EvtHandle(ResourceHandle::from_raw(0x77).unwrap()));
    let handles: Vec<u64> = v.into_handles().iter().map(|h| h.raw()).collect();
    assert_eq!(handles, vec![0x77]);
    assert_eq!(decode(&record(0, 0, 32)), Ok(None));
    assert!(Variant::Uint8(1).into_handles().is_empty());
}

#[test]
fn text_payloads() {
    let mut b = record(BASE + 16, 0, 1);
    for u in "Microsoft-Windows\0".encode_utf16() {
        b.extend_from_slice(&u.to_le_bytes());
    }
    assert_eq!(decode(&b), Ok(Some(Variant::String("Microsoft-Windows".to_string()))));
    b[12] = 35;
    assert_eq!(decode(&b), Ok(Some(Variant::Xml("Microsoft-Windows".to_string()))));

    let mut a = record(BASE + 16, 0, 2);
    a.extend_from_slice(b"C:\\x.dll\0");
    assert_eq!(decode(&a), Ok(Some(Variant::AnsiStr("C:\\x.dll".to_string()))));

    let mut unterminated = record(BASE + 16, 0, 1);
    unterminated.extend_from_slice(&[0x41, 0x00]);
    assert_eq!(decode(&unterminated), Err(WinEvtError::InvalidEncoding));
}

#[test]
fn binary_sid_and_time() {
    let mut b = record(BASE + 16, 3, 14);
    b.extend_from_slice(&[9, 8, 7, 6]);
    assert_eq!(decode(&b), Ok(Some(Variant::Binary(vec![9, 8, 7]))));

    let sid = [1u8, 1, 0, 0, 0, 0, 0, 5, 18, 0, 0, 0];
    let mut s = record(BASE + 16, 0, 19);
    s.extend_from_slice(&sid);
    assert_eq!(decode(&s), Ok(Some(Variant::Sid(sid.to_vec()))));

    let mut t = record(BASE + 16, 0, 18);
    for x in [2024u16, 5, 3, 14, 10, 30, 59, 250] {
        t.extend_from_slice(&x.to_le_bytes());
    }
    assert_eq!(
        decode(&t),
        Ok(Some(Variant::Systime(SystemTime {
            year: 2024,
            month: 5,
            day_of_week: 3,
            day: 14,
            hour: 10,
            minute: 30,
            second: 59,
            milliseconds: 250
        })))
    );
}

#[test]
fn null_unknown_and_out_of_range() {
    assert_eq!(decode(&record(0, 0, 0)), Ok(None));
    assert_eq!(decode(&record(5, 0, 99)), Ok(None));
    assert_eq!(decode(&record(0, 0, 1)), Ok(None));
    assert_eq!(decode(&record(BASE - 1, 0, 1)), Err(WinEvtError::InvalidEncoding));
    assert_eq!(decode(&record(BASE + 4096, 0, 15)), Err(WinEvtError::InvalidEncoding));
    assert_eq!(decode(&[0u8; 15]), Err(WinEvtError::InvalidEncoding));
}

#[test]
fn values_buffer_decodes_records_in_order() {
    let mut b = record(7, 0, 8);
    b.extend_from_slice(&record(1, 0, 13));
    let vs = VariantBuf::render(&b, BASE, 2).unwrap();
    assert_eq!(vs, vec![Some(Variant::Uint32(7)), Some(Variant::Bool(true))]);
    assert_eq!(VariantBuf::render(&b, BASE, 3), Err(WinEvtError::InvalidEncoding));
}

#[test]
fn values_buffer_grows_in_words() {
    let mut vb = VariantBuf::new();
    assert_eq!(vb.byte_capacity(), 0);
    assert!(matches!(vb.on_outcome(FetchOutcome::TooSmall { required: 20 }), FetchStep::Retry));
    assert_eq!(vb.byte_capacity(), 24);
    assert!(matches!(vb.on_outcome(FetchOutcome::Filled { used: 24 }), FetchStep::Ready { used: 24 }));
    assert_eq!(vb.resize(100), Ok(()));
    assert_eq!(vb.byte_capacity(), 104);
    vb.words_mut()[0] = 5;
    vb.reset();
    assert_eq!(vb.words_mut()[0], 0);
    assert_eq!(VariantBuf::sized(4096).byte_capacity(), 4096 + 16);
    let mut fresh = VariantBuf::sized(64);
    assert!(fresh.words_mut().iter().all(|&w| w == 0));
    let mut vb2 = VariantBuf::sized(8);
    vb2.words_mut()[0] = 3;
    assert_eq!(vb2.resize(40), Ok(()));
    assert_eq!(vb2.words_mut().clone(), vec![0u64; 5]);
}

#[test]
fn metadata_from_answers() {
    let (meta, release) = PubMetadataFetcher::get_metadata(
        Ok(Some(Variant::Guid(Guid { data1: 0xA, data2: 0xB, data3: 0xC, data4: [1, 2, 3, 4, 5, 6, 7, 8] }))),
        Ok(Some(Variant::EvtHandle(ResourceHandle::from_raw(99).unwrap()))),
        Ok(Some(Variant::String("params.dll".to_string()))),
        Err(WinEvtError::GenericOsError { code: 2 }),
        Ok(Some(Variant::AnsiStr("https://help".to_string()))),
        Ok(Some(Variant::Uint32(42))),
    );
    assert_eq!(meta.guid, Some("0000000A-000B-000C-0102-030405060708".to_string()));
    assert_eq!(meta.resource_file_path, None);
    assert_eq!(meta.parameter_file_path, Some("params.dll".to_string()));
    assert_eq!(meta.message_file_path, None);
    assert_eq!(meta.help_link, Some("https://help".to_string()));
    assert_eq!(meta.message_id, Some(42));
    assert!(meta.channels.is_empty());
    let released: Vec<u64> = release.iter().map(|h| h.raw()).collect();
    assert_eq!(released, vec![99]);
}

#[test]
fn fetcher_property_steps() {
    let mut f = PubMetadataFetcher::new("PowerShell".to_string(), ResourceHandle::from_raw(5).unwrap());
    assert_eq!(f.name(), "PowerShell");
    assert_eq!(f.raw_handle(), 5);
    assert_eq!(
        PubMetadataFetcher::metadata_field_ids(),
        vec![0, 1, 2, 3, 4, 5]
    );
    assert!(matches!(f.get_prop(FetchOutcome::TooSmall { required: 10_000 }), FetchStep::Retry));
    assert!(f.words_mut().len() * 8 >= 10_000);
    assert_eq!(PubMetadataFetcher::decode_prop(&record(3, 0, 8), BASE), Ok(Some(Variant::Uint32(3))));
    assert_eq!(f.close().raw(), 5);
}

#[test]
fn field_catalog() {
    let all = pub_meta_fields();
    assert_eq!(all.len(), 30);
    assert_eq!(all[0].name, "Publisher Guid");
    assert_eq!(all[4].id, HELP_LINK);
    assert_eq!(all[29].name, "Property Id End");
    assert_eq!(pub_meta_field(PROPERTY_ID_END + 1), None);
    assert_eq!(pub_meta_field(13).unwrap().name, "Level Name");
}

#[test]
fn ansi_text_replaces_invalid_bytes() {
    let mut a = record(BASE + 16, 0, 2);
    a.extend_from_slice(&[b'o', 0xFF, b'k', 0]);
    assert_eq!(decode(&a), Ok(Some(Variant::AnsiStr("o\u{FFFD}k".to_string()))));
}
