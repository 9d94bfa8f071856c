use flight_core::fixed::SCALE;
use flight_core::safety::ArmStatus;
use flight_core::flight_ctrls::common::{Motor, MotorRpm};
use flight_core::protocols::dshot::{
    bool_array_to_u32, calc_crc, data_word, decode_frame, dshot_cycle, encode_frame, gcr_step_1, reduce_bit_count_helper,
    reduce_gcr_bit_count, rpm_from_data, set_power, set_power_single, setup_motor_dir, setup_payload, stop_all,
    update_rpm_from_packet, update_rpms, CmdType, Command, DshotAction, DshotEvent, DshotPayload, DshotPhase, EscData, EscTelemType, RpmError, BIDIR_EN,
    DUTY_HIGH, DUTY_LOW, PAUSE_AFTER_SAVE, PAUSE_BETWEEN_COMMANDS, PAYLOAD_LEN, REC_BUF_LEN,
};

fn frame_in_buffer(buf: &[u16; 72], motor: usize) -> u16 {
    let mut frame = 0u16;
    for k in 0..16 {
        let v = buf[k * 4 + motor] as u32;
        assert!(v == DUTY_HIGH || v == DUTY_LOW);
        frame = (frame << 1) | (v == DUTY_HIGH) as u16;
    }
    frame
}

fn samples(bits: [u8; 20]) -> [bool; 20] {
    let mut out = [false; 20];
    for i in 0..20 {
        out[i] = bits[i] == 1;
    }
    out
}

const RPM_ANSWER: [u8; 20] = [1, 0, 0, 1, 1, 0, 1, 1, 1, 0, 1, 0, 0, 0, 1, 0, 0, 1, 1, 0];
const TELEM_ANSWER: [u8; 20] = [1, 0, 1, 0, 0, 1, 0, 0, 0, 1, 1, 0, 0, 1, 1, 0, 1, 0, 1, 0];

#[test]
fn constants_of_the_protocol() {
    assert!(BIDIR_EN);
    assert_eq!(DUTY_HIGH, 425);
    assert_eq!(DUTY_LOW, 212);
    assert_eq!(PAYLOAD_LEN, 72);
    assert_eq!(REC_BUF_LEN, 20);
}

#[test]
fn checksum_is_inverted_xor_of_nibbles() {
    assert_eq!(calc_crc(0x060), 0x9);
    assert_eq!(calc_crc(0x000), 0xF);
    assert_eq!(calc_crc(0xFFF), 0x0);
    assert_eq!(calc_crc(0x123), 0xF);
    assert_eq!(calc_crc(0xF123), 0xF);
}

#[test]
fn throttle_words_are_linear_in_power() {
    assert_eq!(data_word(CmdType::Power(SCALE / 2)), 1047);
    assert_eq!(data_word(CmdType::Power(20_000_000)), 87);
    assert_eq!(data_word(CmdType::Power(SCALE / 1999)), 48);
    assert_eq!(data_word(CmdType::Power(SCALE / 1999 + 1)), 49);
    assert_eq!(data_word(CmdType::Power(-SCALE)), 48);
    assert_eq!(data_word(CmdType::Power(5 * SCALE)), 2047);
    assert_eq!(data_word(CmdType::Power(i64::MAX)), 2047);
    assert_eq!(data_word(CmdType::Power(i64::MIN)), 48);
}

#[test]
fn command_words() {
    assert_eq!(data_word(CmdType::Command(Command::MotorStop)), 0);
    assert_eq!(data_word(CmdType::Command(Command::SpinDir1)), 7);
    assert_eq!(data_word(CmdType::Command(Command::SpinDir2)), 8);
    assert_eq!(data_word(CmdType::Command(Command::SaveSettings)), 12);
    assert_eq!(data_word(CmdType::Command(Command::SpinDirNormal)), 20);
    assert_eq!(data_word(CmdType::Command(Command::SilendModeOnOff)), 31);
    assert_eq!(data_word(CmdType::Command(Command::ContinuousErpmPeriodTelemetry)), 35);
    assert_eq!(data_word(CmdType::Command(Command::TemperatureTelemetry)), 42);
    assert_eq!(Command::ErpmPeriodTelemetry.code(), 47);
    assert_eq!(Command::Beacon5.code(), 5);
    assert_eq!(Command::Led3Off.code(), 29);
}

#[test]
fn frames_have_word_telemetry_bit_and_checksum() {
    assert_eq!(encode_frame(48, false), 0x0609);
    assert_eq!(encode_frame(48, true), 0x0618);
    assert_eq!(encode_frame(2047, false), 0xFFE1);
    assert_eq!(encode_frame(1047, true), 0x82FA);
    assert_eq!(encode_frame(7, true), 0x00F0);
}

#[test]
fn every_frame_decodes_to_what_it_was_built_from() {
    for word in 0..=2047u16 {
        for telemetry in [false, true] {
            assert_eq!(decode_frame(encode_frame(word, telemetry)), Some((word, telemetry)));
        }
    }
}

#[test]
fn every_power_survives_the_round_trip() {
    let mut power = 0;
    while power <= SCALE {
        let word = data_word(CmdType::Power(power));
        assert!((48..=2047).contains(&word));
        for telemetry in [false, true] {
            assert_eq!(decode_frame(encode_frame(word, telemetry)), Some((word, telemetry)));
        }
        power += 999_983;
    }
}

#[test]
fn every_single_bit_flip_is_detected() {
    for word in 0..=2047u16 {
        for telemetry in [false, true] {
            let frame = encode_frame(word, telemetry);
            for bit in 0..16 {
                assert_eq!(decode_frame(frame ^ (1 << bit)), None);
            }
        }
    }
}

#[test]
fn payload_holds_one_motor_frame_msb_first() {
    let mut p = DshotPayload::new();
    assert_eq!(p.buf, [0u16; 72]);
    assert!(!p.esc_telem);
    setup_payload(&mut p, Motor::M2, CmdType::Power(0));
    assert_eq!(frame_in_buffer_of(&p, 1), 0x0609);
    for j in 0..72 {
        if j >= 64 || j % 4 != 1 {
            assert_eq!(p.buf[j], 0);
        }
    }
    assert_eq!(p.buf[1], 212);
    assert_eq!(p.buf[5 * 4 + 1], 425);
    assert_eq!(p.buf[15 * 4 + 1], 425);
}

fn frame_in_buffer_of(p: &DshotPayload, motor: usize) -> u16 {
    frame_in_buffer(&p.buf, motor)
}

#[test]
fn payload_frames_of_four_motors_do_not_overlap() {
    let mut p = DshotPayload::new();
    set_power(&mut p, 0, SCALE, SCALE / 2, 20_000_000);
    assert_eq!(frame_in_buffer_of(&p, 0), encode_frame(48, false));
    assert_eq!(frame_in_buffer_of(&p, 1), encode_frame(2047, false));
    assert_eq!(frame_in_buffer_of(&p, 2), encode_frame(1047, false));
    assert_eq!(frame_in_buffer_of(&p, 3), encode_frame(87, false));
    for j in 64..72 {
        assert_eq!(p.buf[j], 0);
    }
    set_power_single(&mut p, Motor::M3, SCALE);
    assert_eq!(frame_in_buffer_of(&p, 0), encode_frame(48, false));
    assert_eq!(frame_in_buffer_of(&p, 1), encode_frame(2047, false));
    assert_eq!(frame_in_buffer_of(&p, 2), encode_frame(2047, false));
    assert_eq!(frame_in_buffer_of(&p, 3), encode_frame(87, false));
}

#[test]
fn stop_all_commands_lowest_throttle_not_the_disarm_word() {
    let mut p = DshotPayload::new();
    set_power(&mut p, SCALE, SCALE, SCALE, SCALE);
    stop_all(&mut p);
    for m in 0..4 {
        assert_eq!(decode_frame(frame_in_buffer_of(&p, m)), Some((48, false)));
    }
}

#[test]
fn telemetry_bit_of_the_payload_goes_into_frames() {
    let mut p = DshotPayload::new();
    p.esc_telem = true;
    setup_payload(&mut p, Motor::M1, CmdType::Command(Command::SaveSettings));
    assert_eq!(decode_frame(frame_in_buffer_of(&p, 0)), Some((12, true)));
    assert!(p.esc_telem);
}

#[test]
fn motor_direction_sequence() {
    let reversed = (false, true, true, false);
    let mut p = DshotPayload::new();
    let mut step = 0u32;
    let mut pauses = Vec::new();
    loop {
        let before = p;
        match setup_motor_dir(step, reversed, ArmStatus::Disarmed, &mut p) {
            Some(ms) => {
                pauses.push(ms);
                let expect: [(u16, bool); 4] = if step < 30 {
                    [(48, false); 4]
                } else if step < 40 {
                    [(7, true), (8, true), (8, true), (7, true)]
                } else {
                    [(12, true); 4]
                };
                for m in 0..4 {
                    assert_eq!(decode_frame(frame_in_buffer_of(&p, m)), Some(expect[m]));
                }
                assert_eq!(p.esc_telem, step >= 30);
            }
            None => {
                assert_eq!(p.buf, before.buf);
                assert!(!p.esc_telem);
                break;
            }
        }
        step += 1;
    }
    assert_eq!(step, 50);
    assert_eq!(pauses.len(), 50);
    for (k, ms) in pauses.iter().enumerate() {
        let want = if k == 29 {
            2 * PAUSE_BETWEEN_COMMANDS
        } else if k == 49 {
            PAUSE_BETWEEN_COMMANDS + PAUSE_AFTER_SAVE
        } else {
            PAUSE_BETWEEN_COMMANDS
        };
        assert_eq!(*ms, want);
    }
    assert_eq!(setup_motor_dir(1_000, reversed, ArmStatus::Disarmed, &mut p), None);
    for arm in [ArmStatus::Armed, ArmStatus::ControlsArmed] {
        let mut q = DshotPayload::new();
        q.esc_telem = true;
        assert_eq!(setup_motor_dir(0, reversed, arm, &mut q), None);
        assert_eq!(q.buf, [0u16; 72]);
        assert!(q.esc_telem);
    }
}

#[test]
fn samples_become_bits_from_bit_twenty_down() {
    assert_eq!(bool_array_to_u32(&[]), 0);
    assert_eq!(bool_array_to_u32(&[true]), 1 << 20);
    assert_eq!(bool_array_to_u32(&[false, true, true]), (1 << 19) | (1 << 18));
    assert_eq!(bool_array_to_u32(&samples(RPM_ANSWER)), 1_274_956);
    let mut all = [true; 21];
    assert_eq!(bool_array_to_u32(&all), 0x1F_FFFF);
    all[20] = false;
    assert_eq!(bool_array_to_u32(&all), 0x1F_FFFE);
}

#[test]
fn edge_coding_is_undone() {
    assert_eq!(gcr_step_1(1_274_956), 0x1A_CE6A);
    assert_eq!(gcr_step_1(0), 0);
    assert_eq!(gcr_step_1(0b110), 0b101);
}

#[test]
fn five_bit_groups_stand_for_nibbles() {
    let table: [(u16, u16); 16] = [
        (0x19, 0),
        (0x1b, 1),
        (0x12, 2),
        (0x13, 3),
        (0x1d, 4),
        (0x15, 5),
        (0x16, 6),
        (0x17, 7),
        (0x1a, 8),
        (0x09, 9),
        (0x0a, 10),
        (0x0b, 11),
        (0x1e, 12),
        (0x0d, 13),
        (0x0e, 14),
        (0x0f, 15),
    ];
    for v in 0..64u16 {
        let want = table.iter().find(|(code, _)| *code == v).map(|(_, n)| *n);
        match want {
            Some(n) => assert_eq!(reduce_bit_count_helper(v), Ok(n)),
            None => assert_eq!(reduce_bit_count_helper(v), Err(RpmError::Gcr)),
        }
    }
}

#[test]
fn twenty_bits_become_sixteen() {
    assert_eq!(reduce_gcr_bit_count(708_202), Ok(0x533A));
    assert_eq!(reduce_gcr_bit_count(0x1A_CE6A), Ok(0x533A));
    assert_eq!(reduce_gcr_bit_count(969_406), Ok(0x425C));
    assert_eq!(reduce_gcr_bit_count(0), Err(RpmError::Gcr));
    assert_eq!(reduce_gcr_bit_count(708_202 & !0b1_1111), Err(RpmError::Gcr));
    assert_eq!(reduce_gcr_bit_count(708_202 ^ (1 << 19)), Err(RpmError::Gcr));
}

#[test]
fn packets_hold_speed_or_telemetry() {
    assert_eq!(rpm_from_data(0x533A), Ok(EscData::Rpm(58_166_589_111)));
    assert_eq!(rpm_from_data(0x425C), Ok(EscData::Telem(EscTelemType::Voltage, 0x25)));
    assert_eq!(rpm_from_data(0x533B), Err(RpmError::Crc));
    assert_eq!(rpm_from_data(0x325B), Err(RpmError::TelemType));
}

#[test]
fn every_kind_of_telemetry() {
    let kinds = [
        (0x2u16, EscTelemType::Temp),
        (0x4, EscTelemType::Voltage),
        (0x6, EscTelemType::Current),
        (0x8, EscTelemType::Debug1),
        (0xA, EscTelemType::Debug2),
        (0xC, EscTelemType::Debug3),
        (0xE, EscTelemType::State),
    ];
    for (code, kind) in kinds {
        let data: u16 = (code << 8) | 0x07;
        let packet = (data << 4) | calc_crc(data);
        assert_eq!(rpm_from_data(packet), Ok(EscData::Telem(kind, 0x07)));
    }
}

#[test]
fn the_shortest_period_gives_the_highest_speed() {
    let data: u16 = 0x010;
    let packet = (data << 4) | calc_crc(data);
    assert_eq!((packet >> 8) & 1, 1);
    assert_eq!(rpm_from_data(packet), Ok(EscData::Rpm(4_464_285_714_285)));
    let data: u16 = 0xFFF;
    let packet = (data << 4) | calc_crc(data);
    assert_eq!(rpm_from_data(packet), Ok(EscData::Rpm(1_092_046_407)));
}

#[test]
fn stored_speed_follows_only_good_speed_packets() {
    let mut rpm = 7;
    let mut fault = false;
    assert_eq!(update_rpm_from_packet(&mut rpm, Ok(0x533A), &mut fault), Ok(()));
    assert_eq!(rpm, 58_166_589_111);
    assert_eq!(update_rpm_from_packet(&mut rpm, Ok(0x425C), &mut fault), Ok(()));
    assert_eq!(rpm, 58_166_589_111);
    assert_eq!(update_rpm_from_packet(&mut rpm, Ok(0x533B), &mut fault), Err(RpmError::Crc));
    assert_eq!(update_rpm_from_packet(&mut rpm, Err(RpmError::Gcr), &mut fault), Err(RpmError::Gcr));
    assert_eq!(rpm, 58_166_589_111);
    assert!(!fault);
}

#[test]
fn answers_of_four_motors_are_decoded_apart() {
    let mut rpms = MotorRpm { front_left: 1, front_right: 2, aft_left: 3, aft_right: 4 };
    let mut fault = false;
    let good = samples(RPM_ANSWER);
    update_rpms(&mut rpms, &mut fault, &good, &good, &good, &good);
    assert!(!fault);
    assert_eq!(
        rpms,
        MotorRpm {
            front_left: 58_166_589_111,
            front_right: 58_166_589_111,
            aft_left: 58_166_589_111,
            aft_right: 58_166_589_111
        }
    );

    let mut rpms = MotorRpm { front_left: 1, front_right: 2, aft_left: 3, aft_right: 4 };
    let bad = [false; 20];
    update_rpms(&mut rpms, &mut fault, &good, &bad, &samples(TELEM_ANSWER), &good);
    assert!(fault);
    assert_eq!(rpms, MotorRpm { front_left: 58_166_589_111, front_right: 2, aft_left: 3, aft_right: 58_166_589_111 });

    let mut fault = false;
    let mut rpms = MotorRpm { front_left: 1, front_right: 2, aft_left: 3, aft_right: 4 };
    update_rpms(&mut rpms, &mut fault, &samples(TELEM_ANSWER), &good, &good, &samples(TELEM_ANSWER));
    assert!(!fault);
    assert_eq!(rpms, MotorRpm { front_left: 1, front_right: 58_166_589_111, aft_left: 58_166_589_111, aft_right: 4 });

    let mut fault = true;
    update_rpms(&mut rpms, &mut fault, &good, &good, &good, &good);
    assert!(fault);
}

#[test]
fn a_cycle_runs_from_idle_to_idle() {
    let mut phase = DshotPhase::Idle;
    let mut actions = Vec::new();
    for event in [
        DshotEvent::TransmitRequested,
        DshotEvent::Encoded,
        DshotEvent::TransferComplete,
        DshotEvent::ReceiveComplete,
    ] {
        let (next, action) = dshot_cycle(phase, event, true);
        phase = next;
        actions.push(action);
    }
    assert_eq!(phase, DshotPhase::Idle);
    assert_eq!(
        actions,
        vec![DshotAction::Encode, DshotAction::StartBurst, DshotAction::StartReceive, DshotAction::FinishReceive]
    );
}

#[test]
fn without_answers_a_cycle_ends_with_the_transfer() {
    assert_eq!(
        dshot_cycle(DshotPhase::Transmitting, DshotEvent::TransferComplete, false),
        (DshotPhase::Idle, DshotAction::Nothing)
    );
    assert_eq!(
        dshot_cycle(DshotPhase::Transmitting, DshotEvent::TransferComplete, true),
        (DshotPhase::Receiving, DshotAction::StartReceive)
    );
}

#[test]
fn a_request_to_transmit_aborts_a_reception() {
    assert_eq!(
        dshot_cycle(DshotPhase::Receiving, DshotEvent::TransmitRequested, true),
        (DshotPhase::Encoding, DshotAction::AbortReceiveAndEncode)
    );
    for phase in [DshotPhase::Idle, DshotPhase::Encoding, DshotPhase::Transmitting] {
        assert_eq!(dshot_cycle(phase, DshotEvent::TransmitRequested, true), (DshotPhase::Encoding, DshotAction::Encode));
    }
}

#[test]
fn events_out_of_turn_change_nothing() {
    let out_of_turn = [
        (DshotPhase::Idle, DshotEvent::Encoded),
        (DshotPhase::Idle, DshotEvent::TransferComplete),
        (DshotPhase::Idle, DshotEvent::ReceiveComplete),
        (DshotPhase::Encoding, DshotEvent::TransferComplete),
        (DshotPhase::Encoding, DshotEvent::ReceiveComplete),
        (DshotPhase::Transmitting, DshotEvent::Encoded),
        (DshotPhase::Transmitting, DshotEvent::ReceiveComplete),
        (DshotPhase::Receiving, DshotEvent::Encoded),
        (DshotPhase::Receiving, DshotEvent::TransferComplete),
    ];
    for (phase, event) in out_of_turn {
        for bidirectional in [false, true] {
            assert_eq!(dshot_cycle(phase, event, bidirectional), (phase, DshotAction::Nothing));
        }
    }
}
