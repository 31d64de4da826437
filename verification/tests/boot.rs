use wasabi::boot::{step, BootEvent, BootState};
use wasabi::graphics::{
    EfiGraphicsOutputProtocol, EfiGraphicsOutputProtocolMode, EfiGraphicsOutputProtocolPixelInfo,
    PixelBufferView,
};
use wasabi::locator::LOCATE_FAILURE;
use wasabi::status::EfiStatus;

fn protocol(frame_buffer_base: usize, frame_buffer_size: usize) -> EfiGraphicsOutputProtocol {
    EfiGraphicsOutputProtocol {
        mode: EfiGraphicsOutputProtocolMode {
            max_mode: 1,
            mode: 0,
            info: EfiGraphicsOutputProtocolPixelInfo {
                version: 0,
                horizontalresolution: 640,
                verticalresolution: 480,
                pixels_per_scan_line: 640,
            },
            size_of_info: 36,
            frame_buffer_base,
            frame_buffer_size,
        },
    }
}

fn lookup(code: u64, interface: usize) -> BootEvent {
    BootEvent::LookupReturned { status: EfiStatus { code }, interface }
}

fn states() -> [BootState; 5] {
    [
        BootState::Uninitialized,
        BootState::TableReceived,
        BootState::ServiceLocated { service: 0x1000 },
        BootState::ViewDerived { view: PixelBufferView { base: 0x8000, len: 16 } },
        BootState::Failed { reason: LOCATE_FAILURE },
    ]
}

fn events() -> [BootEvent; 4] {
    [
        BootEvent::Entered,
        lookup(0, 0x1000),
        lookup(14, 0),
        BootEvent::ProtocolRead { protocol: protocol(0x8000, 64) },
    ]
}

fn stage(state: &BootState) -> u32 {
    match state {
        BootState::Uninitialized => 0,
        BootState::TableReceived => 1,
        BootState::ServiceLocated { .. } => 2,
        BootState::Failed { .. } => 2,
        BootState::ViewDerived { .. } => 3,
    }
}

#[test]
fn entry_hands_over_the_table() {
    assert_eq!(step(BootState::Uninitialized, BootEvent::Entered), Some(BootState::TableReceived));
}

#[test]
fn successful_lookup_locates_the_service() {
    assert_eq!(
        step(BootState::TableReceived, lookup(0, 0x7f00_1000)),
        Some(BootState::ServiceLocated { service: 0x7f00_1000 })
    );
}

#[test]
fn failed_lookup_ends_the_sequence() {
    for code in [1u64, 14, u64::MAX] {
        assert_eq!(
            step(BootState::TableReceived, lookup(code, 0x7f00_1000)),
            Some(BootState::Failed { reason: "Failed to locate graphics output protocol" })
        );
    }
}

#[test]
fn reading_the_protocol_derives_the_view() {
    assert_eq!(
        step(
            BootState::ServiceLocated { service: 0x1000 },
            BootEvent::ProtocolRead { protocol: protocol(0x8000_0000, 4096) }
        ),
        Some(BootState::ViewDerived { view: PixelBufferView { base: 0x8000_0000, len: 1024 } })
    );
}

#[test]
fn whole_sequence_runs_to_the_view() {
    let mut state = BootState::Uninitialized;
    for event in [
        BootEvent::Entered,
        lookup(0, 0x1000),
        BootEvent::ProtocolRead { protocol: protocol(0xc000_0000, 640 * 480 * 4) },
    ] {
        state = step(state, event).unwrap();
    }
    assert_eq!(
        state,
        BootState::ViewDerived { view: PixelBufferView { base: 0xc000_0000, len: 640 * 480 } }
    );
}

#[test]
fn events_out_of_turn_are_not_taken() {
    assert_eq!(step(BootState::Uninitialized, lookup(0, 0x1000)), None);
    assert_eq!(
        step(BootState::Uninitialized, BootEvent::ProtocolRead { protocol: protocol(0, 0) }),
        None
    );
    assert_eq!(step(BootState::TableReceived, BootEvent::Entered), None);
    assert_eq!(
        step(BootState::TableReceived, BootEvent::ProtocolRead { protocol: protocol(0, 0) }),
        None
    );
    assert_eq!(step(BootState::ServiceLocated { service: 1 }, BootEvent::Entered), None);
    assert_eq!(step(BootState::ServiceLocated { service: 1 }, lookup(0, 2)), None);
}

#[test]
fn final_states_take_no_event() {
    for event in events() {
        assert_eq!(step(BootState::Failed { reason: LOCATE_FAILURE }, event), None);
        assert_eq!(
            step(BootState::ViewDerived { view: PixelBufferView { base: 0, len: 0 } }, event),
            None
        );
    }
}

#[test]
fn every_step_leads_one_stage_further() {
    let mut taken = 0;
    for state in states() {
        for event in events() {
            if let Some(next) = step(state, event) {
                assert_eq!(stage(&next), stage(&state) + 1);
                taken += 1;
            }
        }
    }
    assert_eq!(taken, 4);
}

#[test]
fn failure_comes_from_a_failed_lookup_only() {
    for state in states() {
        for event in events() {
            if let Some(BootState::Failed { reason }) = step(state, event) {
                assert_eq!(state, BootState::TableReceived);
                assert_eq!(event, lookup(14, 0));
                assert_eq!(reason, LOCATE_FAILURE);
            }
        }
    }
}

#[test]
fn lookup_is_not_tried_again() {
    let failed = step(BootState::TableReceived, lookup(14, 0)).unwrap();
    assert_eq!(step(failed, lookup(0, 0x1000)), None);
    let located = step(BootState::TableReceived, lookup(0, 0x1000)).unwrap();
    assert_eq!(step(located, lookup(0, 0x2000)), None);
}
