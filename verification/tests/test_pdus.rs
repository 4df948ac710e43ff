use bluestation::bitbuffer::{BitBuffer, EncodeErr};
use bluestation::entities::cmce::enums::circuit_mode_type::CircuitModeType;
use bluestation::entities::cmce::enums::cmce_pdu_type_ul::CmcePduTypeUl;
use bluestation::entities::cmce::enums::communication_type::CommunicationType;
use bluestation::entities::cmce::fields::basic_service_information::BasicServiceInformation;
use bluestation::entities::cmce::pdus::d_setup::DSetup;
use bluestation::entities::cmce::pdus::u_setup::USetup;
use bluestation::entities::mm::enums::mm_location_update_accept_type::MmLocationUpdateAcceptType;
use bluestation::entities::mm::enums::mm_pdu_type_dl::MmPduTypeDl;
use bluestation::entities::mm::enums::mm_pdu_type_ul::MmPduTypeUl;
use bluestation::entities::mm::fields::group_identity_attachment::GroupIdentityAttachment;
use bluestation::entities::mm::fields::group_identity_downlink::GroupIdentityDownlink;
use bluestation::entities::mm::fields::group_identity_uplink::GroupIdentityUplink;
use bluestation::entities::mm::pdus::d_attach_detach_group_identity_acknowledgement::DAttachDetachGroupIdentityAcknowledgement;
use bluestation::entities::mm::pdus::d_location_update_accept::DLocationUpdateAccept;
use bluestation::entities::mm::pdus::mm_pdu_function_not_supported::MmPduFunctionNotSupported;
use bluestation::entities::mm::pdus::u_attach_detach_group_identity::UAttachDetachGroupIdentity;
use bluestation::entities::mm::pdus::u_itsi_detach::UItsiDetach;
use bluestation::entities::mm::pdus::u_location_update_demand::ULocationUpdateDemand;
use bluestation::pdu_parse_error::{PduField, PduParseErr};
use bluestation::typed_pdu_lists::PduElement;

fn parse<T>(
    input: &str,
    from_bitbuf: fn(&mut BitBuffer) -> Result<T, PduParseErr>,
) -> Result<T, PduParseErr> {
    from_bitbuf(&mut BitBuffer::from_bitstr(input))
}

fn attach(gssi: u64, class_of_usage: u64) -> GroupIdentityUplink {
    GroupIdentityUplink {
        class_of_usage: Some(class_of_usage),
        group_identity_detachment_uplink: None,
        gssi: Some(gssi),
        address_extension: None,
        vgssi: None,
    }
}

fn granted(gssi: u64, class_of_usage: u64) -> GroupIdentityDownlink {
    GroupIdentityDownlink {
        group_identity_attachment: Some(GroupIdentityAttachment {
            group_identity_attachment_lifetime: 3,
            class_of_usage,
        }),
        group_identity_detachment_uplink: None,
        gssi: Some(gssi),
        address_extension: None,
        vgssi: None,
    }
}

fn speech() -> BasicServiceInformation {
    BasicServiceInformation {
        circuit_mode_type: CircuitModeType::TchS,
        encryption_flag: false,
        communication_type: CommunicationType::P2Mp,
        slots_per_frame: None,
        speech_service: Some(0),
    }
}

fn data() -> BasicServiceInformation {
    BasicServiceInformation {
        circuit_mode_type: CircuitModeType::Tch48n4,
        encryption_flag: true,
        communication_type: CommunicationType::Broadcast,
        slots_per_frame: Some(2),
        speech_service: None,
    }
}

/// A buffer that holds `lead`, then what `write` writes, then `trail`, with the
/// cursor where `write` started; and the bits that `write` wrote.
fn framed(
    lead: &str,
    trail: &str,
    write: &dyn Fn(&mut BitBuffer) -> Result<(), EncodeErr>,
) -> (BitBuffer, String) {
    let mut buf = BitBuffer::new_autoexpand(0);
    for c in lead.chars() {
        buf.write_bits((c == '1') as u64, 1).unwrap();
    }
    let start = buf.get_pos();
    write(&mut buf).unwrap();
    let end = buf.get_pos();
    for c in trail.chars() {
        buf.write_bits((c == '1') as u64, 1).unwrap();
    }
    let all = buf.dump_bin();
    assert!(all.starts_with(lead));
    assert!(all.ends_with(trail));
    assert_eq!(all.len(), lead.len() + (end - start) + trail.len());
    buf.seek(start);
    (buf, all[start..end].to_string())
}

fn bits(parts: &[&str]) -> String {
    parts.concat()
}

fn check_u_location_update_demand(pdu: ULocationUpdateDemand, expected: &str) {
    assert_eq!(pdu.len_bits(), expected.len());
    let (mut buf, written) = framed("101", "0110", &|b| pdu.to_bitbuf(b));
    assert_eq!(written, expected);
    assert_eq!(ULocationUpdateDemand::from_bitbuf(&mut buf), Ok(pdu));
    assert_eq!(buf.get_len_remaining(), 4);
    assert_eq!(parse(expected, ULocationUpdateDemand::from_bitbuf), Ok(pdu));
}

fn check_d_location_update_accept(pdu: DLocationUpdateAccept, expected: &str) {
    assert_eq!(pdu.len_bits(), expected.len());
    let (mut buf, written) = framed("1", "111", &|b| pdu.to_bitbuf(b));
    assert_eq!(written, expected);
    assert_eq!(DLocationUpdateAccept::from_bitbuf(&mut buf), Ok(pdu));
    assert_eq!(buf.get_len_remaining(), 3);
}

fn check_u_itsi_detach(pdu: UItsiDetach, expected: &str) {
    assert_eq!(pdu.len_bits(), expected.len());
    let (mut buf, written) = framed("", "1", &|b| pdu.to_bitbuf(b));
    assert_eq!(written, expected);
    assert_eq!(UItsiDetach::from_bitbuf(&mut buf), Ok(pdu));
    assert_eq!(buf.get_len_remaining(), 1);
}

fn check_u_setup(pdu: USetup, expected: &str) {
    assert_eq!(pdu.len_bits(), expected.len());
    let (mut buf, written) = framed("0000000", "1", &|b| pdu.to_bitbuf(b));
    assert_eq!(written, expected);
    assert_eq!(USetup::from_bitbuf(&mut buf), Ok(pdu));
    assert_eq!(buf.get_len_remaining(), 1);
}

fn check_d_setup(pdu: DSetup, expected: &str) {
    assert_eq!(pdu.len_bits(), expected.len());
    let (mut buf, written) = framed("1", "", &|b| pdu.to_bitbuf(b));
    assert_eq!(written, expected);
    assert_eq!(DSetup::from_bitbuf(&mut buf), Ok(pdu));
    assert_eq!(buf.get_len_remaining(), 0);
}

fn check_group_request(pdu: UAttachDetachGroupIdentity, expected: &str) {
    let (mut buf, written) = framed("11", "01", &|b| pdu.to_bitbuf(b));
    assert_eq!(written, expected);
    assert_eq!(UAttachDetachGroupIdentity::from_bitbuf(&mut buf), Ok(pdu));
    assert_eq!(buf.get_len_remaining(), 2);
}

fn check_group_acknowledgement(pdu: DAttachDetachGroupIdentityAcknowledgement, expected: &str) {
    let (mut buf, written) = framed("0", "10", &|b| pdu.to_bitbuf(b));
    assert_eq!(written, expected);
    assert_eq!(DAttachDetachGroupIdentityAcknowledgement::from_bitbuf(&mut buf), Ok(pdu));
    assert_eq!(buf.get_len_remaining(), 2);
}

fn demand() -> ULocationUpdateDemand {
    ULocationUpdateDemand {
        location_update_type: 3,
        request_to_append_la: false,
        cipher_control: false,
        ciphering_parameters: None,
        class_of_ms: None,
        energy_saving_mode: None,
        la_information: None,
        ssi: None,
        address_extension: None,
    }
}

#[test]
fn u_location_update_demand_round_trip() {
    check_u_location_update_demand(demand(), "0010011000");
    check_u_location_update_demand(
        ULocationUpdateDemand {
            request_to_append_la: true,
            cipher_control: true,
            ciphering_parameters: Some(0x2aa),
            ..demand()
        },
        "00100111110101010100",
    );
    check_u_location_update_demand(
        ULocationUpdateDemand {
            location_update_type: 7,
            energy_saving_mode: Some(5),
            ssi: Some(0xffffff),
            ..demand()
        },
        &bits(&[
            "0010", "111", "0", "0", "1", "0", "1101", "0", "1", "111111111111111111111111", "0",
            "0",
        ]),
    );
    check_u_location_update_demand(
        ULocationUpdateDemand {
            location_update_type: 0,
            request_to_append_la: false,
            cipher_control: true,
            ciphering_parameters: Some(1),
            class_of_ms: Some(0x800001),
            energy_saving_mode: Some(0),
            la_information: Some(0x7fff),
            ssi: Some(1),
            address_extension: Some(0x123456),
        },
        &bits(&[
            "0010", "000", "0", "1", "0000000001", "1", "1", "100000000000000000000001", "1",
            "000", "1", "111111111111111", "1", "000000000000000000000001", "1",
            "000100100011010001010110", "0",
        ]),
    );
}

#[test]
fn d_location_update_accept_round_trip() {
    let plain = DLocationUpdateAccept {
        location_update_accept_type: MmLocationUpdateAcceptType::ItsiAttach,
        ssi: None,
        address_extension: None,
        subscriber_class: None,
        energy_saving_information: None,
        scch_information_and_distribution_on_18th_frame: None,
    };
    check_d_location_update_accept(plain, "01010110");
    check_d_location_update_accept(
        DLocationUpdateAccept {
            location_update_accept_type: MmLocationUpdateAcceptType::DisabledMsUpdating,
            subscriber_class: Some(0xffff),
            scch_information_and_distribution_on_18th_frame: Some(33),
            ..plain
        },
        &bits(&["0101", "111", "1", "0", "0", "1", "1111111111111111", "0", "1", "100001", "0"]),
    );
    check_d_location_update_accept(
        DLocationUpdateAccept {
            location_update_accept_type: MmLocationUpdateAcceptType::RoamingLocationUpdating,
            ssi: Some(1000001),
            address_extension: Some(2),
            subscriber_class: Some(3),
            energy_saving_information: Some(0x3fff),
            scch_information_and_distribution_on_18th_frame: Some(0),
        },
        &bits(&[
            "0101", "000", "1", "1", "000011110100001001000001", "1", "000000000000000000000010",
            "1", "0000000000000011", "1", "11111111111111", "1", "000000", "0",
        ]),
    );
}

#[test]
fn u_itsi_detach_round_trip() {
    check_u_itsi_detach(UItsiDetach { address_extension: None }, "00010");
    check_u_itsi_detach(
        UItsiDetach { address_extension: Some(0xabcdef) },
        "0001111010101111001101111011110",
    );
}

#[test]
fn function_not_supported_round_trip() {
    for t in 0..16u64 {
        let pdu = MmPduFunctionNotSupported { not_supported_pdu_type: t };
        let mut buf = BitBuffer::new_autoexpand(9);
        pdu.to_bitbuf(&mut buf).unwrap();
        assert_eq!(buf.get_len(), 9);
        assert_eq!(pdu.len_bits(), 9);
        buf.seek(0);
        assert_eq!(buf.read_bits(4), Some(15));
        assert_eq!(buf.read_bits(4), Some(t));
        assert_eq!(buf.read_bits(1), Some(0));
        buf.seek(0);
        assert_eq!(MmPduFunctionNotSupported::from_bitbuf(&mut buf), Ok(pdu));
    }
}

fn group_call() -> USetup {
    USetup {
        area_selection: 0,
        hook_method_selection: false,
        simplex_duplex_selection: false,
        basic_service_information: speech(),
        request_to_transmit_send_data: false,
        call_priority: 0,
        clir_control: 0,
        called_party_type_identifier: 1,
        called_party_ssi: Some(91),
        called_party_short_number_address: None,
        called_party_extension: None,
    }
}

#[test]
fn u_setup_round_trip() {
    check_u_setup(
        group_call(),
        &bits(&[
            "00111", "0000", "0", "0", "000", "0", "01", "00", "0", "0000", "00", "01",
            "000000000000000001011011", "0",
        ]),
    );
    check_u_setup(
        USetup {
            area_selection: 15,
            hook_method_selection: true,
            simplex_duplex_selection: true,
            basic_service_information: data(),
            request_to_transmit_send_data: true,
            call_priority: 9,
            clir_control: 2,
            called_party_type_identifier: 0,
            called_party_ssi: None,
            called_party_short_number_address: Some(0x81),
            called_party_extension: None,
        },
        &bits(&[
            "00111", "1111", "1", "1", "011", "1", "11", "10", "1", "1001", "10", "00", "10000001",
            "0",
        ]),
    );
    check_u_setup(
        USetup {
            called_party_type_identifier: 2,
            called_party_ssi: Some(0xffffff),
            called_party_extension: Some(0x800000),
            ..group_call()
        },
        &bits(&[
            "00111", "0000", "0", "0", "000", "0", "01", "00", "0", "0000", "00", "10",
            "111111111111111111111111", "100000000000000000000000", "0",
        ]),
    );
}

#[test]
fn d_setup_round_trip() {
    let plain = DSetup {
        call_identifier: 1,
        call_time_out: 0,
        hook_method_selection: false,
        simplex_duplex_selection: false,
        basic_service_information: speech(),
        transmission_grant: 0,
        transmission_request_permission: false,
        call_priority: 0,
        notification_indicator: None,
        temporary_address: None,
        calling_party_type_identifier: None,
        calling_party_address_ssi: None,
        calling_party_extension: None,
    };
    check_d_setup(
        plain,
        &bits(&["00111", "00000000000001", "0000", "0", "0", "00000100", "00", "0", "0000", "0"]),
    );
    check_d_setup(
        DSetup {
            calling_party_type_identifier: Some(1),
            calling_party_address_ssi: Some(1000001),
            ..plain
        },
        &bits(&[
            "00111", "00000000000001", "0000", "0", "0", "00000100", "00", "0", "0000", "1", "0",
            "0", "1", "01", "000011110100001001000001", "0",
        ]),
    );
    check_d_setup(
        DSetup {
            call_identifier: 16383,
            call_time_out: 15,
            hook_method_selection: true,
            simplex_duplex_selection: true,
            basic_service_information: data(),
            transmission_grant: 3,
            transmission_request_permission: true,
            call_priority: 15,
            notification_indicator: Some(63),
            temporary_address: Some(0x000001),
            calling_party_type_identifier: Some(2),
            calling_party_address_ssi: Some(0x010203),
            calling_party_extension: Some(0x040506),
        },
        &bits(&[
            "00111", "11111111111111", "1111", "1", "1", "01111110", "11", "1", "1111", "1", "1",
            "111111", "1", "000000000000000000000001", "1", "10", "000000010000001000000011",
            "000001000000010100000110", "0",
        ]),
    );
}

#[test]
fn group_identity_round_trip() {
    check_group_request(
        UAttachDetachGroupIdentity {
            group_identity_report: false,
            group_identity_attach_detach_mode: false,
            group_identity_uplink: None,
        },
        "0111000",
    );
    check_group_request(
        UAttachDetachGroupIdentity {
            group_identity_report: true,
            group_identity_attach_detach_mode: true,
            group_identity_uplink: Some(vec![]),
        },
        &bits(&["0111", "1", "1", "1", "1", "1000", "00000000110", "000000", "0"]),
    );
    check_group_request(
        UAttachDetachGroupIdentity {
            group_identity_report: false,
            group_identity_attach_detach_mode: true,
            group_identity_uplink: Some(vec![
                attach(91, 4),
                GroupIdentityUplink {
                    class_of_usage: None,
                    group_identity_detachment_uplink: Some(2),
                    gssi: Some(7),
                    address_extension: Some(8),
                    vgssi: None,
                },
                GroupIdentityUplink {
                    class_of_usage: Some(0),
                    group_identity_detachment_uplink: None,
                    gssi: None,
                    address_extension: None,
                    vgssi: Some(0xffffff),
                },
            ]),
        },
        &bits(&[
            "0111", "0", "1", "1", "1", "1000", "00001110111", "000011", "0", "100", "00",
            "000000000000000001011011", "1", "10", "01", "000000000000000000000111",
            "000000000000000000001000", "0", "000", "10", "111111111111111111111111", "0",
        ]),
    );
    check_group_acknowledgement(
        DAttachDetachGroupIdentityAcknowledgement {
            group_identity_accept_reject: 0,
            reserved: false,
            group_identity_downlink: Some(vec![granted(91, 4)]),
        },
        &bits(&[
            "1011", "0", "0", "1", "1", "0111", "00000100110", "000001", "0", "11", "100", "00",
            "000000000000000001011011", "0",
        ]),
    );
    check_group_acknowledgement(
        DAttachDetachGroupIdentityAcknowledgement {
            group_identity_accept_reject: 1,
            reserved: true,
            group_identity_downlink: Some(vec![
                GroupIdentityDownlink {
                    group_identity_attachment: None,
                    group_identity_detachment_uplink: Some(3),
                    gssi: Some(1),
                    address_extension: Some(2),
                    vgssi: Some(3),
                },
                GroupIdentityDownlink {
                    group_identity_attachment: None,
                    group_identity_detachment_uplink: Some(0),
                    gssi: None,
                    address_extension: None,
                    vgssi: Some(5),
                },
            ]),
        },
        &bits(&[
            "1011", "1", "1", "1", "1", "0111", "00001110000", "000010", "1", "11", "11",
            "000000000000000000000001", "000000000000000000000010", "000000000000000000000011",
            "1", "00", "10", "000000000000000000000101", "0",
        ]),
    );
    check_group_acknowledgement(
        DAttachDetachGroupIdentityAcknowledgement {
            group_identity_accept_reject: 0,
            reserved: false,
            group_identity_downlink: None,
        },
        "1011000",
    );
}

#[test]
fn element_lengths() {
    assert_eq!(speech().len_bits(), 8);
    assert_eq!(data().len_bits(), 8);
    assert_eq!(attach(1, 2).len_bits(), 30);
    assert_eq!(granted(1, 2).len_bits(), 32);
    let mut buf = BitBuffer::from_bitstr("0000010001111110");
    assert_eq!(BasicServiceInformation::read(&mut buf), Ok(speech()));
    assert_eq!(BasicServiceInformation::read(&mut buf), Ok(data()));
    assert_eq!(BasicServiceInformation::read(&mut buf), Err(PduParseErr::UnexpectedEof));
}

#[test]
fn parse_then_serialize_gives_the_input() {
    let long = bits(&[
        "0010", "111", "0", "0", "1", "0", "1101", "0", "1", "111111111111111111111111", "0", "0",
    ]);
    let inputs = ["0010011000", "00100111110101010100", long.as_str()];
    for input in inputs {
        let mut buf = BitBuffer::from_bitstr(&format!("{}1011", input));
        let pdu = ULocationUpdateDemand::from_bitbuf(&mut buf).unwrap();
        assert_eq!(buf.get_pos(), input.len());
        let mut out = BitBuffer::new_autoexpand(0);
        pdu.to_bitbuf(&mut out).unwrap();
        assert_eq!(out.dump_bin(), input);
    }
    // Every accept type of three bits parses and is written back.
    for t in 0..8u64 {
        let input = format!("0101{:03b}0", t);
        let pdu = parse(&input, DLocationUpdateAccept::from_bitbuf).unwrap();
        assert_eq!(pdu.location_update_accept_type.into_raw(), t);
        let mut out = BitBuffer::new_autoexpand(0);
        pdu.to_bitbuf(&mut out).unwrap();
        assert_eq!(out.dump_bin(), input);
    }
}

#[test]
fn input_that_ends_early_is_refused() {
    let eof = Err(PduParseErr::UnexpectedEof);
    assert_eq!(parse("", ULocationUpdateDemand::from_bitbuf), eof);
    assert_eq!(parse("001", ULocationUpdateDemand::from_bitbuf), eof);
    assert_eq!(parse("001001100", ULocationUpdateDemand::from_bitbuf), eof);
    assert_eq!(parse("0010011011", ULocationUpdateDemand::from_bitbuf), eof);
    let eof = Err(PduParseErr::UnexpectedEof);
    assert_eq!(parse("0101011", DLocationUpdateAccept::from_bitbuf), eof);
    let eof = Err(PduParseErr::UnexpectedEof);
    assert_eq!(parse("0001", UItsiDetach::from_bitbuf), eof);
    assert_eq!(parse("00011110101011", UItsiDetach::from_bitbuf), eof);
    let eof = Err(PduParseErr::UnexpectedEof);
    assert_eq!(parse("11110011", MmPduFunctionNotSupported::from_bitbuf), eof);
    let eof = Err(PduParseErr::UnexpectedEof);
    assert_eq!(parse("0011100000000000010", USetup::from_bitbuf), eof);
    let eof = Err(PduParseErr::UnexpectedEof);
    assert_eq!(parse("00111000000000000010000", DSetup::from_bitbuf), eof);
    let eof = Err(PduParseErr::UnexpectedEof);
    assert_eq!(parse("011100", UAttachDetachGroupIdentity::from_bitbuf), eof);
    let cut_list = bits(&[
        "0111", "0", "0", "1", "1", "1000", "00000100100", "000001", "0", "100", "00",
        "00000000000000000101101",
    ]);
    assert_eq!(parse(&cut_list, UAttachDetachGroupIdentity::from_bitbuf), eof);
    let eof = Err(PduParseErr::UnexpectedEof);
    assert_eq!(parse("101100", DAttachDetachGroupIdentityAcknowledgement::from_bitbuf), eof);
}

#[test]
fn another_pdu_type_is_refused() {
    fn wrong<T>(value: u64) -> Result<T, PduParseErr> {
        Err(PduParseErr::InvalidEnum { field: PduField::PduType, value })
    }
    assert_eq!(parse("00110000010010", ULocationUpdateDemand::from_bitbuf), wrong(3));
    assert_eq!(parse("00100000", DLocationUpdateAccept::from_bitbuf), wrong(2));
    assert_eq!(parse("00100", UItsiDetach::from_bitbuf), wrong(2));
    assert_eq!(parse("000000000", MmPduFunctionNotSupported::from_bitbuf), wrong(0));
    assert_eq!(parse("0111000", DAttachDetachGroupIdentityAcknowledgement::from_bitbuf), wrong(7));
    assert_eq!(parse("1011000", UAttachDetachGroupIdentity::from_bitbuf), wrong(11));
    assert_eq!(parse("01000", USetup::from_bitbuf), wrong(8));
    assert_eq!(parse("11111", DSetup::from_bitbuf), wrong(31));
}

#[test]
fn reserved_encodings_are_refused() {
    fn reserved<T>() -> Result<T, PduParseErr> {
        Err(PduParseErr::ReservedValue)
    }
    // A set O-bit with nothing behind it.
    assert_eq!(parse("0001100", UItsiDetach::from_bitbuf), reserved());
    assert_eq!(parse("01010111000000", DLocationUpdateAccept::from_bitbuf), reserved());
    assert_eq!(parse("0010011001000000", ULocationUpdateDemand::from_bitbuf), reserved());
    assert_eq!(parse("01110010", UAttachDetachGroupIdentity::from_bitbuf), reserved());
    // A set M-bit, which announces an element that is not carried.
    assert_eq!(parse("0001111010101111001101111011111", UItsiDetach::from_bitbuf), reserved());
    let second_element = bits(&["0111", "1", "1", "1", "1", "1000", "00000000110", "000000", "1"]);
    assert_eq!(parse(&second_element, UAttachDetachGroupIdentity::from_bitbuf), reserved());
    // Optional parts of a PDU that carries none.
    assert_eq!(parse("111100111", MmPduFunctionNotSupported::from_bitbuf), reserved());
    let with_o_bit = bits(&[
        "00111", "0000", "0", "0", "00000100", "0", "0000", "00", "01",
        "000000000000000001011011", "1",
    ]);
    assert_eq!(parse(&with_o_bit, USetup::from_bitbuf), reserved());
}

#[test]
fn undefined_values_are_refused() {
    let called = bits(&["00111", "0000", "0", "0", "00000100", "0", "0000", "00", "11"]);
    assert_eq!(
        parse(&called, USetup::from_bitbuf),
        Err(PduParseErr::InvalidEnum { field: PduField::CalledPartyTypeIdentifier, value: 3 })
    );
    let named = |kind: &str| {
        bits(&[
            "00111", "00000000000001", "0000", "0", "0", "00000100", "00", "0", "0000", "1", "0",
            "0", "1", kind,
        ])
    };
    assert_eq!(
        parse(&named("00"), DSetup::from_bitbuf),
        Err(PduParseErr::InvalidEnum { field: PduField::CallingPartyTypeIdentifier, value: 0 })
    );
    assert_eq!(
        parse(&named("11"), DSetup::from_bitbuf),
        Err(PduParseErr::InvalidEnum { field: PduField::CallingPartyTypeIdentifier, value: 3 })
    );
    assert_eq!(parse(&named("01"), DSetup::from_bitbuf), Err(PduParseErr::UnexpectedEof));
    // The element identifier of the downlink list in an uplink PDU.
    let downlink_list = bits(&["0111", "0", "0", "1", "1", "0111", "00000000110", "000000", "0"]);
    assert_eq!(
        parse(&downlink_list, UAttachDetachGroupIdentity::from_bitbuf),
        Err(PduParseErr::InvalidEnum { field: PduField::Type34ElementId, value: 7 })
    );
    // The address type 3 in an uplink element.
    let address_type_3 =
        bits(&["0111", "0", "0", "1", "1", "1000", "00000100100", "000001", "0", "100", "11"]);
    assert_eq!(
        parse(&address_type_3, UAttachDetachGroupIdentity::from_bitbuf),
        Err(PduParseErr::InvalidEnum { field: PduField::GroupIdentityAddressType, value: 3 })
    );
}

#[test]
fn length_indicator_has_to_be_exact() {
    let list = |length: &str| {
        bits(&[
            "0111", "0", "0", "1", "1", "1000", length, "000001", "0", "100", "00",
            "000000000000000001011011", "0",
        ])
    };
    assert!(parse(&list("00000100100"), UAttachDetachGroupIdentity::from_bitbuf).is_ok());
    assert_eq!(
        parse(&list("00000100101"), UAttachDetachGroupIdentity::from_bitbuf),
        Err(PduParseErr::LengthOverflow)
    );
    assert_eq!(
        parse(&list("00000100011"), UAttachDetachGroupIdentity::from_bitbuf),
        Err(PduParseErr::LengthOverflow)
    );
}

#[test]
fn a_buffer_without_room_is_left_alone() {
    let pdu = UItsiDetach { address_extension: Some(1) };
    let mut buf = BitBuffer::new(30);
    buf.seek(2);
    assert_eq!(pdu.to_bitbuf(&mut buf), Err(EncodeErr::NoSpace));
    assert_eq!(buf.get_pos(), 2);
    assert_eq!(buf.dump_bin(), "0".repeat(30));
    buf.seek(0);
    assert_eq!(UItsiDetach { address_extension: None }.to_bitbuf(&mut buf), Ok(()));
    assert_eq!(buf.get_pos(), 5);

    let mut buf = BitBuffer::new(31);
    assert_eq!(pdu.to_bitbuf(&mut buf), Ok(()));
    assert_eq!(buf.get_len_remaining(), 0);

    let mut buf = BitBuffer::new_autoexpand(0);
    for _ in 0..40 {
        buf.write_bits(0, 64).unwrap();
    }
    buf.write_bits(0, 5).unwrap();
    assert_eq!(pdu.to_bitbuf(&mut buf), Err(EncodeErr::LengthOverflow));
    assert_eq!(buf.get_len(), 2565);
    buf.seek(2564);
    assert_eq!(pdu.to_bitbuf(&mut buf), Ok(()));
    assert_eq!(buf.get_len(), 2595);
}

#[test]
fn a_list_that_is_too_long_is_refused() {
    let request = |n: usize| UAttachDetachGroupIdentity {
        group_identity_report: false,
        group_identity_attach_detach_mode: false,
        group_identity_uplink: Some(vec![attach(1, 1); n]),
    };
    let mut buf = BitBuffer::new(100_000);
    // 63 elements of 30 bits fit the count and the length indicator.
    assert_eq!(request(63).to_bitbuf(&mut buf), Ok(()));
    assert_eq!(buf.get_pos(), 6 + 3 + 21 + 63 * 30);
    buf.seek(0);
    assert_eq!(UAttachDetachGroupIdentity::from_bitbuf(&mut buf), Ok(request(63)));
    buf.seek(0);
    assert_eq!(request(64).to_bitbuf(&mut buf), Err(EncodeErr::LengthOverflow));
    assert_eq!(buf.get_pos(), 0);
    // 38 elements of 54 bits are longer than the length indicator can say.
    let long = GroupIdentityUplink { address_extension: Some(2), ..attach(1, 1) };
    let request = |n: usize| UAttachDetachGroupIdentity {
        group_identity_report: false,
        group_identity_attach_detach_mode: false,
        group_identity_uplink: Some(vec![long; n]),
    };
    assert_eq!(request(37).to_bitbuf(&mut buf), Ok(()));
    buf.seek(0);
    assert_eq!(request(38).to_bitbuf(&mut buf), Err(EncodeErr::LengthOverflow));
}

#[test]
fn pdu_type_fields() {
    for v in 0..16u64 {
        match MmPduTypeUl::try_from(v) {
            Ok(t) => assert_eq!(t.into_raw(), v),
            Err(e) => {
                assert_eq!(e, v);
                assert!([10, 12, 13, 14].contains(&v));
            }
        }
        match MmPduTypeDl::try_from(v) {
            Ok(t) => assert_eq!(t.into_raw(), v),
            Err(e) => {
                assert_eq!(e, v);
                assert!([8, 13, 14].contains(&v));
            }
        }
    }
    assert_eq!(MmPduTypeUl::try_from(2), Ok(MmPduTypeUl::ULocationUpdateDemand));
    assert_eq!(MmPduTypeUl::try_from(16), Err(16));
    assert_eq!(MmPduTypeDl::try_from(5), Ok(MmPduTypeDl::DLocationUpdateAccept));
    assert_eq!(CmcePduTypeUl::try_from(7), Ok(CmcePduTypeUl::USetup));
    assert_eq!(CmcePduTypeUl::try_from(31), Ok(CmcePduTypeUl::CmceFunctionNotSupported));
    assert_eq!(CmcePduTypeUl::try_from(1), Err(1));
    assert_eq!(CmcePduTypeUl::try_from(32), Err(32));
    let defined: Vec<u64> = (0..32).filter(|v| CmcePduTypeUl::try_from(*v).is_ok()).collect();
    assert_eq!(defined, vec![0, 2, 4, 5, 6, 7, 8, 9, 10, 14, 15, 16, 31]);
    for v in 0..8u64 {
        assert_eq!(CircuitModeType::from_raw(v).into_raw(), v);
        assert_eq!(MmLocationUpdateAcceptType::from_raw(v).into_raw(), v);
    }
    for v in 0..4u64 {
        assert_eq!(CommunicationType::from_raw(v).into_raw(), v);
    }
    assert_eq!(CircuitModeType::from_raw(0), CircuitModeType::TchS);
    assert_eq!(CommunicationType::from_raw(1), CommunicationType::P2Mp);
    assert_eq!(MmLocationUpdateAcceptType::from_raw(3), MmLocationUpdateAcceptType::ItsiAttach);
}
