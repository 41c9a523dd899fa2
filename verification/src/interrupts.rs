//! Interrupt vector layout and the decisions taken by the handlers.
//!
//! The vector table is described as plain data: which handler serves which
//! vector and on which stack. A handler is described by what it asks of its
//! surroundings: a diagnostic banner, an end-of-interrupt acknowledgment,
//! and whether execution resumes. Scancode decoding is done by `pc_keyboard`.

use crate::gdt::DOUBLE_FAULT_INDEX;
use pc_keyboard::layouts::Us104Key;
use pc_keyboard::{DecodedKey, HandleControl, KeyCode, KeyEvent, Keyboard, ScancodeSet1};
use vstd::prelude::*;

verus! {

/// First vector of the primary interrupt controller.
pub const PIC1_OFFSET: u8 = 32;

/// First vector of the secondary interrupt controller.
pub const PIC2_OFFSET: u8 = PIC1_OFFSET + 8;

/// The hardware interrupt lines that are served.
#[derive(Debug, Clone, Copy, PartialEq, Eq)]
pub enum InterruptsIndex {
    Timer,
    Keyboard,
}

impl InterruptsIndex {
    /// The vector on which the line fires once the controllers are remapped:
    /// the lines follow one another from `PIC1_OFFSET`.
    pub open spec fn vector(self) -> u8 {
        match self {
            InterruptsIndex::Timer => PIC1_OFFSET,
            InterruptsIndex::Keyboard => (PIC1_OFFSET + 1) as u8,
        }
    }

    pub fn as_u8(self) -> (v: u8)
        ensures
            v == self.vector(),
    {
        match self {
            InterruptsIndex::Timer => PIC1_OFFSET,
            InterruptsIndex::Keyboard => PIC1_OFFSET + 1,
        }
    }

    pub fn as_usize(self) -> (v: usize)
        ensures
            v == self.vector(),
    {
        let v: u8 = self.as_u8();
        v as usize
    }
}

/// The handlers that the vector table dispatches to.
#[derive(Debug, Clone, Copy, PartialEq, Eq)]
pub enum Handler {
    Breakpoint,
    DoubleFault,
    PageFault,
    Timer,
    Keyboard,
}

/// What happens once a handler has run.
#[derive(Debug, Clone, Copy, PartialEq, Eq)]
pub enum Outcome {
    /// Return to the interrupted code.
    Resume,
    /// Stop the machine for good.
    Halt,
}

/// What a handler asks of its surroundings.
#[derive(Debug, Clone, Copy, PartialEq, Eq)]
pub struct Response {
    /// First line of the diagnostic written to the error channel, if any.
    pub banner: Option<&'static str>,
    /// The line to acknowledge at the interrupt controller, if any.
    pub acknowledge: Option<InterruptsIndex>,
    pub outcome: Outcome,
}

/// One populated slot of the vector table.
#[derive(Debug, Clone, Copy, PartialEq, Eq)]
pub struct VectorEntry {
    pub vector: u8,
    pub handler: Handler,
    /// Slot of the interrupt stack table to switch to, if any.
    pub stack_index: Option<u16>,
}

impl Handler {
    /// Vector of the handler: the architectural number for an exception, the
    /// remapped line for a hardware interrupt.
    pub open spec fn spec_vector(self) -> u8 {
        match self {
            Handler::Breakpoint => 3,
            Handler::DoubleFault => 8,
            Handler::PageFault => 14,
            Handler::Timer => InterruptsIndex::Timer.vector(),
            Handler::Keyboard => InterruptsIndex::Keyboard.vector(),
        }
    }

    /// Only the double-fault handler runs on a stack of its own.
    pub open spec fn spec_stack_index(self) -> Option<u16> {
        match self {
            Handler::DoubleFault => Some(DOUBLE_FAULT_INDEX),
            _ => None,
        }
    }

    pub open spec fn spec_banner(self) -> Option<Seq<char>> {
        match self {
            Handler::Breakpoint => Some("[EXCEPTION] :: BREAKPOINT"@),
            Handler::DoubleFault => Some("[EXCEPTION] :: DOUBLE FAULT"@),
            Handler::PageFault => Some("[EXCEPTION] :: PAGE FAULT"@),
            _ => None,
        }
    }

    /// A hardware interrupt acknowledges its own line and no other; an
    /// exception acknowledges nothing.
    pub open spec fn spec_acknowledge(self) -> Option<InterruptsIndex> {
        match self {
            Handler::Timer => Some(InterruptsIndex::Timer),
            Handler::Keyboard => Some(InterruptsIndex::Keyboard),
            _ => None,
        }
    }

    /// Double faults and page faults are fatal; everything else resumes.
    pub open spec fn spec_outcome(self) -> Outcome {
        match self {
            Handler::DoubleFault | Handler::PageFault => Outcome::Halt,
            _ => Outcome::Resume,
        }
    }

    pub fn vector(self) -> (v: u8)
        ensures
            v == self.spec_vector(),
    {
        match self {
            Handler::Breakpoint => 3,
            Handler::DoubleFault => 8,
            Handler::PageFault => 14,
            Handler::Timer => InterruptsIndex::Timer.as_u8(),
            Handler::Keyboard => InterruptsIndex::Keyboard.as_u8(),
        }
    }

    pub fn stack_index(self) -> (i: Option<u16>)
        ensures
            i == self.spec_stack_index(),
    {
        match self {
            Handler::DoubleFault => Some(DOUBLE_FAULT_INDEX),
            _ => None,
        }
    }

    /// The slot of the vector table that this handler occupies.
    pub fn entry(self) -> (e: VectorEntry)
        ensures
            e == entry_of(self),
    {
        VectorEntry { vector: self.vector(), handler: self, stack_index: self.stack_index() }
    }

    /// What the handler does, apart from decoding a scancode.
    pub fn response(self) -> (r: Response)
        ensures
            match r.banner {
                Some(text) => self.spec_banner() == Some(text@),
                None => self.spec_banner().is_none(),
            },
            r.acknowledge == self.spec_acknowledge(),
            r.outcome == self.spec_outcome(),
    {
        match self {
            Handler::Breakpoint => Response {
                banner: Some("[EXCEPTION] :: BREAKPOINT"),
                acknowledge: None,
                outcome: Outcome::Resume,
            },
            Handler::DoubleFault => Response {
                banner: Some("[EXCEPTION] :: DOUBLE FAULT"),
                acknowledge: None,
                outcome: Outcome::Halt,
            },
            Handler::PageFault => Response {
                banner: Some("[EXCEPTION] :: PAGE FAULT"),
                acknowledge: None,
                outcome: Outcome::Halt,
            },
            Handler::Timer => Response {
                banner: None,
                acknowledge: Some(InterruptsIndex::Timer),
                outcome: Outcome::Resume,
            },
            Handler::Keyboard => Response {
                banner: None,
                acknowledge: Some(InterruptsIndex::Keyboard),
                outcome: Outcome::Resume,
            },
        }
    }
}

pub open spec fn entry_of(handler: Handler) -> VectorEntry {
    VectorEntry {
        vector: handler.spec_vector(),
        handler,
        stack_index: handler.spec_stack_index(),
    }
}

/// The populated slots of the vector table, in the order in which they are
/// installed.
pub open spec fn idt_entries() -> Seq<VectorEntry> {
    seq![
        entry_of(Handler::Breakpoint),
        entry_of(Handler::DoubleFault),
        entry_of(Handler::Timer),
        entry_of(Handler::Keyboard),
        entry_of(Handler::PageFault),
    ]
}

/// The handler that serves `vector`, if the table has one.
pub open spec fn spec_handler_for(vector: u8) -> Option<Handler> {
    if vector == 3 {
        Some(Handler::Breakpoint)
    } else if vector == 8 {
        Some(Handler::DoubleFault)
    } else if vector == 14 {
        Some(Handler::PageFault)
    } else if vector == InterruptsIndex::Timer.vector() {
        Some(Handler::Timer)
    } else if vector == InterruptsIndex::Keyboard.vector() {
        Some(Handler::Keyboard)
    } else {
        None
    }
}

/// Builds the vector table that is loaded into the CPU.
pub fn init_idt() -> (table: [VectorEntry; 5])
    ensures
        table@ == idt_entries(),
{
    let table = [
        Handler::Breakpoint.entry(),
        Handler::DoubleFault.entry(),
        Handler::Timer.entry(),
        Handler::Keyboard.entry(),
        Handler::PageFault.entry(),
    ];
    table
}

/// Dispatch by vector number.
pub fn handler_for(vector: u8) -> (h: Option<Handler>)
    ensures
        h == spec_handler_for(vector),
{
    if vector == 3 {
        Some(Handler::Breakpoint)
    } else if vector == 8 {
        Some(Handler::DoubleFault)
    } else if vector == 14 {
        Some(Handler::PageFault)
    } else if vector == InterruptsIndex::Timer.as_u8() {
        Some(Handler::Timer)
    } else if vector == InterruptsIndex::Keyboard.as_u8() {
        Some(Handler::Keyboard)
    } else {
        None
    }
}

/// The table and the dispatch agree: a vector is served exactly when the
/// table has a slot for it, by the handler in that slot; no two slots share
/// a vector.
pub proof fn lemma_table_matches_dispatch()
    ensures
        forall|i: int|
            0 <= i < idt_entries().len() ==> spec_handler_for(
                (#[trigger] idt_entries()[i]).vector,
            ) == Some(idt_entries()[i].handler),
        forall|v: u8|
            (#[trigger] spec_handler_for(v)).is_some() ==> idt_entries().contains(
                entry_of(spec_handler_for(v).unwrap()),
            ) && spec_handler_for(v).unwrap().spec_vector() == v,
        forall|i: int, j: int|
            0 <= i < j < idt_entries().len() ==> (#[trigger] idt_entries()[i]).vector != (
            #[trigger] idt_entries()[j]).vector,
{
    let t = idt_entries();
    assert(t[0] == entry_of(Handler::Breakpoint));
    assert(t[1] == entry_of(Handler::DoubleFault));
    assert(t[2] == entry_of(Handler::Timer));
    assert(t[3] == entry_of(Handler::Keyboard));
    assert(t[4] == entry_of(Handler::PageFault));
}

/// Exceptions keep their architectural vectors below 32. Hardware lines sit
/// on the primary controller's eight vectors, clear of the exceptions, and
/// each acknowledges the line that its own vector belongs to.
pub proof fn lemma_vectors_do_not_conflict(handler: Handler)
    ensures
        match handler.spec_acknowledge() {
            Some(line) => line.vector() == handler.spec_vector() && PIC1_OFFSET
                <= handler.spec_vector() < PIC2_OFFSET,
            None => handler.spec_vector() < 32,
        },
        handler.spec_stack_index().is_some() <==> handler == Handler::DoubleFault,
{
}

/// State of the scancode decoder: a `pc_keyboard::Keyboard` for a US 104-key
/// layout and scancode set 1. Its fields are hidden; contracts speak of what
/// the decoder has been given since it was made, which determines them.
#[verifier::external_body]
pub struct ScancodeDecoder {
    keyboard: Keyboard<Us104Key, ScancodeSet1>,
}

/// The bytes that a decoder has been fed since it was made, oldest first.
/// The decoder keeps no such list: it keeps the state of the scancode
/// automaton, which these bytes determine.
pub uninterp spec fn fed_bytes(decoder: ScancodeDecoder) -> Seq<u8>;

/// The key events that a decoder has processed since it was made, oldest
/// first. The decoder keeps no such list: it keeps the modifier keys that are
/// held or locked, which these events determine.
pub uninterp spec fn processed_events(decoder: ScancodeDecoder) -> Seq<KeyEvent>;

/// What `Keyboard::add_byte` makes of `byte` after the bytes `fed`, for
/// scancode set 1: a key event, nothing yet for the first byte of an
/// extended code, or an error for a code that the set does not have.
pub uninterp spec fn scancode_event(fed: Seq<u8>, byte: u8) -> Result<
    Option<KeyEvent>,
    pc_keyboard::Error,
>;

/// What `Keyboard::process_keyevent` makes of `event` after the events
/// `processed`, for the US 104-key layout: the character or the key code of
/// a key that goes down, nothing for a modifier key or a key that goes up.
pub uninterp spec fn decoded_key(processed: Seq<KeyEvent>, event: KeyEvent) -> Option<DecodedKey>;

/// Mathematical value of a [`ScancodeDecoder`]: what it has been given.
pub struct DecoderView {
    pub fed: Seq<u8>,
    pub processed: Seq<KeyEvent>,
}

impl View for ScancodeDecoder {
    type V = DecoderView;

    open spec fn view(&self) -> DecoderView {
        DecoderView { fed: fed_bytes(*self), processed: processed_events(*self) }
    }
}

/// The key event that a byte completed, if it completed one. A byte that
/// completes none and a byte that the decoder rejects both yield nothing.
pub open spec fn spec_completed_event(
    outcome: Result<Option<KeyEvent>, pc_keyboard::Error>,
) -> Option<KeyEvent> {
    match outcome {
        Ok(Some(event)) => Some(event),
        _ => None,
    }
}

impl DecoderView {
    /// A decoder that has been given nothing.
    pub open spec fn fresh() -> DecoderView {
        DecoderView { fed: Seq::empty(), processed: Seq::empty() }
    }

    /// The key that `scancode` yields, and the decoder after it. The byte is
    /// fed in any case; the key event that it completes, if any, is
    /// processed, and what that yields is the key.
    pub open spec fn decode(self, scancode: u8) -> (Option<DecodedKey>, DecoderView) {
        let fed = self.fed.push(scancode);
        match spec_completed_event(scancode_event(self.fed, scancode)) {
            Some(event) => (
                decoded_key(self.processed, event),
                DecoderView { fed, processed: self.processed.push(event) },
            ),
            None => (None, DecoderView { fed, processed: self.processed }),
        }
    }
}

/// `pc_keyboard::KeyCode`, carried through as it is.
#[verifier::external_type_specification]
#[verifier::external_body]
pub struct ExKeyCode(KeyCode);

/// `pc_keyboard::DecodedKey` with its two variants: a character, or the
/// code of a key that has none.
#[verifier::external_type_specification]
pub struct ExDecodedKey(DecodedKey);

/// `pc_keyboard::KeyEvent`, carried from one decoder call to the next.
#[verifier::external_type_specification]
#[verifier::external_body]
pub struct ExKeyEvent(KeyEvent);

/// `pc_keyboard::Error`, which is dropped: a byte that the decoder rejects
/// yields no key.
#[verifier::external_type_specification]
#[verifier::external_body]
pub struct ExKeyboardError(pc_keyboard::Error);

/// `Keyboard::new` with the US 104-key layout, scancode set 1 and control
/// combinations left as they are. The new decoder has been given nothing.
#[verifier::external_body]
fn keyboard_new() -> (decoder: ScancodeDecoder)
    ensures
        fed_bytes(decoder) == Seq::<u8>::empty(),
        processed_events(decoder) == Seq::<KeyEvent>::empty(),
{
    ScancodeDecoder { keyboard: Keyboard::new(Us104Key, ScancodeSet1, HandleControl::Ignore) }
}

/// `Keyboard::add_byte`: feeds one byte to the decoder. It steps the
/// scancode automaton, whose state it alone reads and writes, so what comes
/// back is settled by the bytes fed before and this one. The modifier keys
/// are not touched.
#[verifier::external_body]
fn keyboard_add_byte(decoder: &mut ScancodeDecoder, byte: u8) -> (outcome: Result<
    Option<KeyEvent>,
    pc_keyboard::Error,
>)
    ensures
        outcome == scancode_event(fed_bytes(*old(decoder)), byte),
        fed_bytes(*final(decoder)) == fed_bytes(*old(decoder)).push(byte),
        processed_events(*final(decoder)) == processed_events(*old(decoder)),
{
    decoder.keyboard.add_byte(byte)
}

/// `Keyboard::process_keyevent`: turns a key event into a decoded key. It
/// reads and writes the modifier keys alone, so what comes back is settled
/// by the events processed before and this one. The scancode automaton is
/// not touched.
#[verifier::external_body]
fn keyboard_process_keyevent(decoder: &mut ScancodeDecoder, event: KeyEvent) -> (key: Option<
    DecodedKey,
>)
    ensures
        key == decoded_key(processed_events(*old(decoder)), event),
        processed_events(*final(decoder)) == processed_events(*old(decoder)).push(event),
        fed_bytes(*final(decoder)) == fed_bytes(*old(decoder)),
{
    decoder.keyboard.process_keyevent(event)
}

/// What the console is asked to do for a key.
#[derive(Debug, Clone, Copy, PartialEq, Eq)]
pub enum KeyAction {
    /// The byte completed no key, or a key that prints nothing.
    Nothing,
    /// Retreat the cursor by one cell.
    Backspace,
    /// Write the character.
    Print(char),
    /// Write the name of a key that has no character.
    PrintRaw(KeyCode),
}

/// What the keyboard handler asks of its surroundings.
#[derive(Debug, Clone, Copy, PartialEq, Eq)]
pub struct KeyboardResponse {
    pub action: KeyAction,
    pub acknowledge: InterruptsIndex,
}

/// The action for a character: the backspace code retreats the cursor, every
/// other character is written as it is.
pub open spec fn spec_handle_character(c: char) -> KeyAction {
    if c == '\u{8}' {
        KeyAction::Backspace
    } else {
        KeyAction::Print(c)
    }
}

/// The action for what the decoder made of a byte.
pub open spec fn spec_key_action(key: Option<DecodedKey>) -> KeyAction {
    match key {
        Some(DecodedKey::Unicode(c)) => spec_handle_character(c),
        Some(DecodedKey::RawKey(code)) => KeyAction::PrintRaw(code),
        None => KeyAction::Nothing,
    }
}

pub fn handle_character(c: char) -> (a: KeyAction)
    ensures
        a == spec_handle_character(c),
{
    if c == '\u{8}' {
        return KeyAction::Backspace;
    }
    KeyAction::Print(c)
}

pub fn key_action(key: Option<DecodedKey>) -> (a: KeyAction)
    ensures
        a == spec_key_action(key),
{
    match key {
        Some(DecodedKey::Unicode(c)) => handle_character(c),
        Some(DecodedKey::RawKey(code)) => KeyAction::PrintRaw(code),
        None => KeyAction::Nothing,
    }
}

/// The key event that a byte completed, if it completed one.
pub fn completed_event(outcome: Result<Option<KeyEvent>, pc_keyboard::Error>) -> (event: Option<
    KeyEvent,
>)
    ensures
        event == spec_completed_event(outcome),
{
    match outcome {
        Ok(Some(event)) => Some(event),
        _ => None,
    }
}

impl ScancodeDecoder {
    /// A decoder that has seen no byte yet.
    pub fn new() -> (decoder: Self)
        ensures
            decoder@ == DecoderView::fresh(),
    {
        keyboard_new()
    }

    /// Feeds one scancode byte. A byte that completes no key event, or that
    /// the decoder does not know, yields no key.
    pub fn decode(&mut self, scancode: u8) -> (key: Option<DecodedKey>)
        ensures
            key == old(self)@.decode(scancode).0,
            final(self)@ == old(self)@.decode(scancode).1,
    {
        match completed_event(keyboard_add_byte(self, scancode)) {
            Some(event) => keyboard_process_keyevent(self, event),
            None => None,
        }
    }
}

/// The keyboard handler: decodes the byte read from the data port and says
/// what to do with the key that it yields. Whatever the decoder makes of the
/// byte, the keyboard line, and only that line, is acknowledged.
pub fn keyboard_interrupt_handler(decoder: &mut ScancodeDecoder, scancode: u8) -> (r:
    KeyboardResponse)
    ensures
        r.acknowledge == InterruptsIndex::Keyboard,
        r.action == spec_key_action(old(decoder)@.decode(scancode).0),
        final(decoder)@ == old(decoder)@.decode(scancode).1,
{
    let key = decoder.decode(scancode);
    KeyboardResponse { action: key_action(key), acknowledge: InterruptsIndex::Keyboard }
}

} // verus!
