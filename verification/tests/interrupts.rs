use kernel::gdt::{self, DOUBLE_FAULT_INDEX, STACK_SIZE};
use kernel::interrupts::{
    completed_event, handle_character, handler_for, init_idt, key_action,
    keyboard_interrupt_handler, Handler, InterruptsIndex, KeyAction, Outcome, ScancodeDecoder,
    VectorEntry, PIC1_OFFSET, PIC2_OFFSET,
};
use pc_keyboard::{DecodedKey, Error, KeyCode, KeyEvent, KeyState};

#[test]
fn controllers_are_remapped_clear_of_the_exceptions() {
    assert_eq!(PIC1_OFFSET, 32);
    assert_eq!(PIC2_OFFSET, 40);
}

#[test]
fn timer_fires_on_32_and_keyboard_on_33() {
    assert_eq!(InterruptsIndex::Timer.as_u8(), 32);
    assert_eq!(InterruptsIndex::Keyboard.as_u8(), 33);
    assert_eq!(InterruptsIndex::Timer.as_usize(), 32);
    assert_eq!(InterruptsIndex::Keyboard.as_usize(), 33);
    assert_eq!(handler_for(32), Some(Handler::Timer));
    assert_eq!(handler_for(33), Some(Handler::Keyboard));
}

#[test]
fn acknowledging_the_keyboard_does_not_acknowledge_the_timer() {
    let keyboard = Handler::Keyboard.response();
    assert_eq!(keyboard.acknowledge, Some(InterruptsIndex::Keyboard));
    assert_eq!(keyboard.acknowledge.map(|line| line.as_u8()), Some(33));
    let timer = Handler::Timer.response();
    assert_eq!(timer.acknowledge, Some(InterruptsIndex::Timer));
    assert_eq!(timer.acknowledge.map(|line| line.as_u8()), Some(32));

    let mut decoder = ScancodeDecoder::new();
    for scancode in [0x1e, 0x9e, 0xe0, 0x48, 0xff, 0x00] {
        let response = keyboard_interrupt_handler(&mut decoder, scancode);
        assert_eq!(response.acknowledge, InterruptsIndex::Keyboard);
    }
}

#[test]
fn exceptions_acknowledge_nothing() {
    for handler in [Handler::Breakpoint, Handler::DoubleFault, Handler::PageFault] {
        assert_eq!(handler.response().acknowledge, None);
    }
}

#[test]
fn double_fault_runs_on_the_reserved_stack() {
    let table = init_idt();
    let entry = table.iter().find(|e| e.handler == Handler::DoubleFault).unwrap();
    assert_eq!(entry.vector, 8);
    assert_eq!(entry.stack_index, Some(DOUBLE_FAULT_INDEX));
    for other in table.iter().filter(|e| e.handler != Handler::DoubleFault) {
        assert_eq!(other.stack_index, None);
    }
    let stacks = gdt::init(0x20_0000);
    assert_eq!(stacks.stack_top(entry.stack_index.unwrap()), Some(0x20_0000 + STACK_SIZE));
    let response = Handler::DoubleFault.response();
    assert_eq!(response.banner, Some("[EXCEPTION] :: DOUBLE FAULT"));
    assert_eq!(response.outcome, Outcome::Halt);
}

#[test]
fn vector_table_holds_the_five_handlers() {
    assert_eq!(
        init_idt(),
        [
            VectorEntry { vector: 3, handler: Handler::Breakpoint, stack_index: None },
            VectorEntry { vector: 8, handler: Handler::DoubleFault, stack_index: Some(0) },
            VectorEntry { vector: 32, handler: Handler::Timer, stack_index: None },
            VectorEntry { vector: 33, handler: Handler::Keyboard, stack_index: None },
            VectorEntry { vector: 14, handler: Handler::PageFault, stack_index: None },
        ]
    );
}

#[test]
fn dispatch_agrees_with_the_table() {
    let table = init_idt();
    for vector in 0..=255u8 {
        let slot = table.iter().find(|e| e.vector == vector);
        assert_eq!(handler_for(vector), slot.map(|e| e.handler));
    }
    for handler in
        [Handler::Breakpoint, Handler::DoubleFault, Handler::PageFault, Handler::Timer, Handler::Keyboard]
    {
        assert_eq!(handler_for(handler.vector()), Some(handler));
        assert_eq!(handler.entry().vector, handler.vector());
        assert_eq!(handler.entry().stack_index, handler.stack_index());
    }
}

#[test]
fn breakpoint_logs_and_resumes() {
    let r = Handler::Breakpoint.response();
    assert_eq!(r.banner, Some("[EXCEPTION] :: BREAKPOINT"));
    assert_eq!(r.outcome, Outcome::Resume);
}

#[test]
fn page_fault_logs_and_halts() {
    let r = Handler::PageFault.response();
    assert_eq!(r.banner, Some("[EXCEPTION] :: PAGE FAULT"));
    assert_eq!(r.outcome, Outcome::Halt);
}

#[test]
fn hardware_interrupts_resume_silently() {
    for handler in [Handler::Timer, Handler::Keyboard] {
        let r = handler.response();
        assert_eq!(r.banner, None);
        assert_eq!(r.outcome, Outcome::Resume);
    }
}

#[test]
fn backspace_code_retreats_and_other_characters_print() {
    assert_eq!(handle_character('\u{8}'), KeyAction::Backspace);
    assert_eq!(handle_character('a'), KeyAction::Print('a'));
    assert_eq!(handle_character('\n'), KeyAction::Print('\n'));
    assert_eq!(handle_character('\u{7f}'), KeyAction::Print('\u{7f}'));
    assert_eq!(handle_character('é'), KeyAction::Print('é'));
}

#[test]
fn key_action_follows_the_decoded_key() {
    assert_eq!(key_action(None), KeyAction::Nothing);
    assert_eq!(key_action(Some(DecodedKey::Unicode('x'))), KeyAction::Print('x'));
    assert_eq!(key_action(Some(DecodedKey::Unicode('\u{8}'))), KeyAction::Backspace);
    assert_eq!(key_action(Some(DecodedKey::RawKey(KeyCode::F1))), KeyAction::PrintRaw(KeyCode::F1));
}

#[test]
fn letter_key_prints_its_character() {
    let mut decoder = ScancodeDecoder::new();
    assert_eq!(keyboard_interrupt_handler(&mut decoder, 0x1e).action, KeyAction::Print('a'));
    assert_eq!(keyboard_interrupt_handler(&mut decoder, 0x9e).action, KeyAction::Nothing);
    assert_eq!(keyboard_interrupt_handler(&mut decoder, 0x02).action, KeyAction::Print('1'));
}

#[test]
fn backspace_key_retreats_the_cursor() {
    let mut decoder = ScancodeDecoder::new();
    assert_eq!(keyboard_interrupt_handler(&mut decoder, 0x0e).action, KeyAction::Backspace);
}

#[test]
fn shift_is_remembered_between_interrupts() {
    let mut decoder = ScancodeDecoder::new();
    assert_eq!(keyboard_interrupt_handler(&mut decoder, 0x2a).action, KeyAction::Nothing);
    assert_eq!(keyboard_interrupt_handler(&mut decoder, 0x1e).action, KeyAction::Print('A'));
    assert_eq!(keyboard_interrupt_handler(&mut decoder, 0xaa).action, KeyAction::Nothing);
    assert_eq!(keyboard_interrupt_handler(&mut decoder, 0x1e).action, KeyAction::Print('a'));
}

#[test]
fn extended_key_needs_two_bytes() {
    let mut decoder = ScancodeDecoder::new();
    assert_eq!(keyboard_interrupt_handler(&mut decoder, 0xe0).action, KeyAction::Nothing);
    assert_eq!(
        keyboard_interrupt_handler(&mut decoder, 0x48).action,
        KeyAction::PrintRaw(KeyCode::ArrowUp)
    );
    assert_eq!(decoder.decode(0xe0), None);
    assert_eq!(decoder.decode(0x50), Some(DecodedKey::RawKey(KeyCode::ArrowDown)));
}

#[test]
fn key_without_character_prints_its_name() {
    let mut decoder = ScancodeDecoder::new();
    assert_eq!(keyboard_interrupt_handler(&mut decoder, 0x3b).action, KeyAction::PrintRaw(KeyCode::F1));
}

#[test]
fn unknown_scancode_is_ignored() {
    let mut decoder = ScancodeDecoder::new();
    assert_eq!(keyboard_interrupt_handler(&mut decoder, 0x7f).action, KeyAction::Nothing);
    assert_eq!(keyboard_interrupt_handler(&mut decoder, 0x1e).action, KeyAction::Print('a'));
}

#[test]
fn emergency_stack_sits_in_its_slot_only() {
    let stacks = gdt::init(0xffff_8000_0010_0000);
    assert_eq!(STACK_SIZE, 20480);
    assert_eq!(DOUBLE_FAULT_INDEX, 0);
    assert_eq!(stacks.stack_top(0), Some(0xffff_8000_0010_5000));
    for index in 1..10u16 {
        assert_eq!(stacks.stack_top(index), None);
    }
}

#[test]
fn only_a_completed_key_event_is_passed_on() {
    let event = KeyEvent::new(KeyCode::A, KeyState::Down);
    assert_eq!(completed_event(Ok(Some(event.clone()))), Some(event));
    assert_eq!(completed_event(Ok(None)), None);
    assert_eq!(completed_event(Err(Error::UnknownKeyCode)), None);
    assert_eq!(completed_event(Err(Error::ParityError)), None);
}

#[test]
fn fresh_decoder_holds_no_modifier_and_no_pending_byte() {
    let mut decoder = ScancodeDecoder::new();
    assert_eq!(decoder.decode(0x10), Some(DecodedKey::Unicode('q')));
    let mut shifted = ScancodeDecoder::new();
    assert_eq!(shifted.decode(0x36), None);
    assert_eq!(shifted.decode(0x10), Some(DecodedKey::Unicode('Q')));
}

#[test]
fn decoders_given_the_same_bytes_yield_the_same_keys() {
    let bytes = [
        0x2a, 0x1e, 0xaa, 0x1e, 0xe0, 0x48, 0x3a, 0x30, 0x3a, 0x30, 0x7f, 0xe0, 0x7f, 0x0e, 0x1c,
        0x9c, 0x39,
    ];
    let mut first = ScancodeDecoder::new();
    let mut second = ScancodeDecoder::new();
    let mut keys = Vec::new();
    for byte in bytes {
        let key = first.decode(byte);
        assert_eq!(second.decode(byte), key);
        keys.push(key);
    }
    assert_eq!(keys[1], Some(DecodedKey::Unicode('A')));
    assert_eq!(keys[3], Some(DecodedKey::Unicode('a')));
    assert_eq!(keys[5], Some(DecodedKey::RawKey(KeyCode::ArrowUp)));
    assert_eq!(keys[7], Some(DecodedKey::Unicode('B')));
    assert_eq!(keys[9], Some(DecodedKey::Unicode('b')));
    assert_eq!(keys[10], None);
    assert_eq!(keys[13], Some(DecodedKey::Unicode('\u{8}')));
    assert_eq!(keys[14], Some(DecodedKey::Unicode('\n')));
    assert_eq!(keys[16], Some(DecodedKey::Unicode(' ')));
}

#[test]
fn a_rejected_byte_after_the_extension_byte_leaves_the_decoder_ready() {
    let mut decoder = ScancodeDecoder::new();
    assert_eq!(decoder.decode(0xe0), None);
    assert_eq!(decoder.decode(0x7f), None);
    assert_eq!(decoder.decode(0x48), Some(DecodedKey::Unicode('8')));
}
