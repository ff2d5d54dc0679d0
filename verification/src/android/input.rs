//! What messages about input lead to.

use vstd::prelude::*;

use crate::android::messages::{FromJavaMessage, TouchPoint, TouchState};
#[allow(unused_imports)]
use crate::android::messages::MessageGroup;
use crate::float_bits::is_below_half_f64;
#[allow(unused_imports)]
use crate::float_bits::f64_below_half;

verus! {

/// A key, as far as it is told from others.
#[derive(Clone, Copy, PartialEq, Eq, Structural, Debug)]
pub enum KeyCode {
    Unknown,
    Back,
    KeyA,
    KeyC,
    KeyV,
    KeyX,
    /// Any other key, by its number.
    Other(u32),
}

/// The keys that are held down besides.
#[derive(Clone, Copy, PartialEq, Eq, Structural, Debug)]
pub struct KeyModifiers {
    pub shift: bool,
    pub control: bool,
    pub alt: bool,
    pub logo: bool,
}

/// Which bits of a meta state stand for which key.
#[derive(Clone, Copy, PartialEq, Eq, Structural, Debug)]
pub struct MetaMasks {
    pub control: u32,
    pub alt: u32,
    pub shift: u32,
}

impl MetaMasks {
    /// The keys that a meta state says are held down.
    pub open spec fn held(self, meta_state: u32) -> KeyModifiers {
        KeyModifiers {
            shift: meta_state & self.shift != 0,
            control: meta_state & self.control != 0,
            alt: meta_state & self.alt != 0,
            logo: false,
        }
    }

    /// Reads the keys that are held down.
    pub fn read(&self, meta_state: u32) -> (modifiers: KeyModifiers)
        ensures
            modifiers == self.held(meta_state),
    {
        KeyModifiers {
            shift: meta_state & self.shift != 0,
            control: meta_state & self.control != 0,
            alt: meta_state & self.alt != 0,
            logo: false,
        }
    }
}

/// What the keyboard on the screen was last known to do. The height is the bits of a
/// double-precision number.
#[derive(Clone, Copy, PartialEq, Eq, Structural, Debug)]
pub struct ImeState {
    pub visible: bool,
    pub height: u64,
}

/// What is found out about a message before it is handled.
#[derive(Clone, Copy, PartialEq, Eq, Structural, Debug)]
pub struct InputContext {
    /// The key of a key message.
    pub key: KeyCode,
    pub masks: MetaMasks,
    /// The height of the keyboard in layout points, and by how much it differs from the
    /// one that was last known; both are bits of double-precision numbers.
    pub keyboard_height: u64,
    pub keyboard_change: u64,
}

/// Something that a message about input leads to.
pub enum InputAction {
    BackPressed,
    /// At a place in pixels.
    LongPress { x: u64, y: u64, pointer_id: u64, time: u64 },
    /// Handle the touches.
    Touch(Vec<TouchPoint>),
    /// Text of one character.
    Character(u32),
    Text { text: String, was_paste: bool },
    Copy,
    Cut,
    /// Read the clipboard, and paste what it holds.
    Paste,
    KeyDown { key: KeyCode, modifiers: KeyModifiers },
    KeyUp { key: KeyCode, modifiers: KeyModifiers },
    ForgetImeConfig,
    ImeDismissed,
    KeyboardShown { height: u64 },
    KeyboardHidden,
    /// Copy, and put what was copied on the clipboard.
    CopyToClipboard,
    /// Cut, and put what was cut on the clipboard.
    CutToClipboard,
    SelectionHandleDrag { handle: u32, phase: u32, x: u64, y: u64, time: u64 },
    TextState {
        text: String,
        selection_start: i32,
        selection_end: i32,
        composition: Option<(i32, i32)>,
    },
    ImeAction { action_code: i32 },
}

/// A number of a Unicode character.
pub open spec fn is_character(code: u32) -> bool {
    code < 0xd800 || 0xe000 <= code <= 0x10_ffff
}

/// Whether control or alt is held down.
pub open spec fn is_shortcut(modifiers: KeyModifiers) -> bool {
    modifiers.control || modifiers.alt
}

/// What a key leads to that goes down.
pub open spec fn key_down_actions(key: KeyCode, modifiers: KeyModifiers) -> Seq<InputAction> {
    if key == KeyCode::Unknown {
        seq![]
    } else if is_shortcut(modifiers) {
        match key {
            KeyCode::KeyC => seq![InputAction::Copy],
            KeyCode::KeyX => seq![InputAction::Cut],
            KeyCode::KeyV => seq![InputAction::Paste],
            _ => seq![],
        }
    } else if key == KeyCode::Back {
        seq![InputAction::BackPressed, InputAction::KeyDown { key, modifiers }]
    } else {
        seq![InputAction::KeyDown { key, modifiers }]
    }
}

/// The keyboard is where it was, but for less than half a point.
pub open spec fn keyboard_unchanged(ime: ImeState, context: InputContext) -> bool {
    ime.visible && f64_below_half(context.keyboard_change)
}

/// What the keyboard on the screen leads to.
pub open spec fn keyboard_actions(ime: ImeState, context: InputContext, is_open: bool) -> Seq<
    InputAction,
> {
    if is_open {
        if keyboard_unchanged(ime, context) {
            seq![]
        } else {
            seq![InputAction::KeyboardShown { height: context.keyboard_height }]
        }
    } else if ime.visible {
        seq![
            InputAction::ForgetImeConfig,
            InputAction::ImeDismissed,
            InputAction::KeyboardHidden,
        ]
    } else {
        seq![InputAction::ForgetImeConfig]
    }
}

/// What is known of the keyboard afterwards.
pub open spec fn keyboard_after(ime: ImeState, context: InputContext, is_open: bool) -> ImeState {
    if is_open {
        if keyboard_unchanged(ime, context) {
            ime
        } else {
            ImeState { visible: true, height: context.keyboard_height }
        }
    } else if ime.visible {
        ImeState { visible: false, height: 0 }
    } else {
        ime
    }
}

/// What an action of the clipboard leads to. To select all is control and A.
pub open spec fn clipboard_actions(action: Seq<char>) -> Seq<InputAction> {
    if action == "copy"@ {
        seq![InputAction::CopyToClipboard]
    } else if action == "cut"@ {
        seq![InputAction::CutToClipboard]
    } else if action == "select_all"@ {
        seq![
            InputAction::KeyDown {
                key: KeyCode::KeyA,
                modifiers: KeyModifiers { shift: false, control: true, alt: false, logo: false },
            },
        ]
    } else {
        seq![]
    }
}

/// The part that is being composed: both ends have to be there.
pub open spec fn composed_part(start: i32, end: i32) -> Option<(i32, i32)> {
    if start >= 0 && end >= 0 {
        Some((start, end))
    } else {
        None
    }
}

/// What a message about input leads to.
pub open spec fn input_actions(
    ime: ImeState,
    message: FromJavaMessage,
    context: InputContext,
) -> Seq<InputAction> {
    match message {
        FromJavaMessage::BackPressed => seq![InputAction::BackPressed],
        FromJavaMessage::LongClick { x, y, pointer_id, time } => seq![
            InputAction::LongPress { x, y, pointer_id, time },
        ],
        FromJavaMessage::Touch(touches) => seq![InputAction::Touch(touches)],
        FromJavaMessage::Character { character } => if is_character(character) {
            seq![InputAction::Character(character)]
        } else {
            seq![]
        },
        FromJavaMessage::KeyDown { keycode, meta_state } => key_down_actions(
            context.key,
            context.masks.held(meta_state),
        ),
        FromJavaMessage::KeyUp { keycode, meta_state } => seq![
            InputAction::KeyUp { key: context.key, modifiers: context.masks.held(meta_state) },
        ],
        FromJavaMessage::ResizeTextIME { keyboard_height, is_open } => keyboard_actions(
            ime,
            context,
            is_open,
        ),
        FromJavaMessage::ClipboardAction { action } => clipboard_actions(action@),
        FromJavaMessage::ClipboardPaste { content } => seq![
            InputAction::Text { text: content, was_paste: true },
        ],
        FromJavaMessage::SelectionHandleDrag { handle, phase, x, y, time } => seq![
            InputAction::SelectionHandleDrag { handle, phase, x, y, time },
        ],
        FromJavaMessage::ImeTextStateChanged {
            full_text,
            selection_start,
            selection_end,
            composing_start,
            composing_end,
        } => seq![
            InputAction::TextState {
                text: full_text,
                selection_start,
                selection_end,
                composition: composed_part(composing_start, composing_end),
            },
        ],
        FromJavaMessage::ImeEditorAction { action_code } => seq![
            InputAction::ImeAction { action_code },
        ],
        _ => seq![],
    }
}

/// What is known of the keyboard after a message.
pub open spec fn ime_after(ime: ImeState, message: FromJavaMessage, context: InputContext) -> ImeState {
    match message {
        FromJavaMessage::ResizeTextIME { keyboard_height, is_open } => keyboard_after(
            ime,
            context,
            is_open,
        ),
        _ => ime,
    }
}

fn list_key_down_actions(key: KeyCode, modifiers: KeyModifiers) -> (actions: Vec<InputAction>)
    ensures
        actions@ == key_down_actions(key, modifiers),
{
    let mut actions: Vec<InputAction> = Vec::new();
    if key != KeyCode::Unknown {
        if modifiers.control || modifiers.alt {
            match key {
                KeyCode::KeyC => {
                    actions.push(InputAction::Copy);
                },
                KeyCode::KeyX => {
                    actions.push(InputAction::Cut);
                },
                KeyCode::KeyV => {
                    actions.push(InputAction::Paste);
                },
                _ => {},
            }
        } else {
            if key == KeyCode::Back {
                actions.push(InputAction::BackPressed);
            }
            actions.push(InputAction::KeyDown { key, modifiers });
        }
    }
    assert(actions@ =~= key_down_actions(key, modifiers));
    actions
}

fn list_clipboard_actions(action: &String) -> (actions: Vec<InputAction>)
    ensures
        actions@ == clipboard_actions(action@),
{
    let mut actions: Vec<InputAction> = Vec::new();
    let copy: String = "copy".to_owned();
    let cut: String = "cut".to_owned();
    let select_all: String = "select_all".to_owned();
    if *action == copy {
        actions.push(InputAction::CopyToClipboard);
    } else if *action == cut {
        actions.push(InputAction::CutToClipboard);
    } else if *action == select_all {
        actions.push(
            InputAction::KeyDown {
                key: KeyCode::KeyA,
                modifiers: KeyModifiers { shift: false, control: true, alt: false, logo: false },
            },
        );
    }
    assert(actions@ =~= clipboard_actions(action@));
    actions
}

impl ImeState {
    /// No keyboard is known.
    pub fn new() -> (ime: ImeState)
        ensures
            ime == (ImeState { visible: false, height: 0 }),
    {
        ImeState { visible: false, height: 0 }
    }

    fn resize(&mut self, context: InputContext, is_open: bool) -> (actions: Vec<InputAction>)
        ensures
            actions@ == keyboard_actions(*old(self), context, is_open),
            *final(self) == keyboard_after(*old(self), context, is_open),
    {
        let mut actions: Vec<InputAction> = Vec::new();
        if is_open {
            if !(self.visible && is_below_half_f64(context.keyboard_change)) {
                self.visible = true;
                self.height = context.keyboard_height;
                actions.push(InputAction::KeyboardShown { height: context.keyboard_height });
            }
        } else {
            actions.push(InputAction::ForgetImeConfig);
            if self.visible {
                self.visible = false;
                self.height = 0;
                actions.push(InputAction::ImeDismissed);
                actions.push(InputAction::KeyboardHidden);
            }
        }
        assert(actions@ =~= keyboard_actions(*old(self), context, is_open));
        actions
    }

    /// Takes a message about input, and says what it leads to, in order.
    pub fn handle_android_input_message(
        &mut self,
        message: FromJavaMessage,
        context: InputContext,
    ) -> (actions: Vec<InputAction>)
        requires
            message.group() == MessageGroup::Input,
        ensures
            actions@ == input_actions(*old(self), message, context),
            *final(self) == ime_after(*old(self), message, context),
    {
        let ghost wanted = input_actions(*self, message, context);
        let mut actions: Vec<InputAction> = Vec::new();
        match message {
            FromJavaMessage::BackPressed => {
                actions.push(InputAction::BackPressed);
            },
            FromJavaMessage::LongClick { x, y, pointer_id, time } => {
                actions.push(InputAction::LongPress { x, y, pointer_id, time });
            },
            FromJavaMessage::Touch(touches) => {
                actions.push(InputAction::Touch(touches));
            },
            FromJavaMessage::Character { character } => {
                if character < 0xd800 || (0xe000 <= character && character <= 0x10_ffff) {
                    actions.push(InputAction::Character(character));
                }
            },
            FromJavaMessage::KeyDown { keycode: _, meta_state } => {
                actions = list_key_down_actions(context.key, context.masks.read(meta_state));
            },
            FromJavaMessage::KeyUp { keycode: _, meta_state } => {
                actions.push(
                    InputAction::KeyUp {
                        key: context.key,
                        modifiers: context.masks.read(meta_state),
                    },
                );
            },
            FromJavaMessage::ResizeTextIME { keyboard_height: _, is_open } => {
                actions = self.resize(context, is_open);
            },
            FromJavaMessage::ClipboardAction { action } => {
                actions = list_clipboard_actions(&action);
            },
            FromJavaMessage::ClipboardPaste { content } => {
                actions.push(InputAction::Text { text: content, was_paste: true });
            },
            FromJavaMessage::SelectionHandleDrag { handle, phase, x, y, time } => {
                actions.push(InputAction::SelectionHandleDrag { handle, phase, x, y, time });
            },
            FromJavaMessage::ImeTextStateChanged {
                full_text,
                selection_start,
                selection_end,
                composing_start,
                composing_end,
            } => {
                let composition: Option<(i32, i32)> = if composing_start >= 0 && composing_end
                    >= 0 {
                    Some((composing_start, composing_end))
                } else {
                    None
                };
                actions.push(
                    InputAction::TextState {
                        text: full_text,
                        selection_start,
                        selection_end,
                        composition,
                    },
                );
            },
            FromJavaMessage::ImeEditorAction { action_code } => {
                actions.push(InputAction::ImeAction { action_code });
            },
            _ => {},
        }
        assert(actions@ =~= wanted);
        actions
    }
}

/// What pasting leads to: the text of the clipboard, unless there is none.
pub fn pasted(content: String) -> (action: Option<InputAction>)
    ensures
        action == (if content@.len() == 0 {
            None
        } else {
            Some(InputAction::Text { text: content, was_paste: true })
        }),
{
    if content.as_str().unicode_len() == 0 {
        None
    } else {
        Some(InputAction::Text { text: content, was_paste: true })
    }
}

/// Where the first finger is that does `state`.
pub open spec fn first_touch(touches: Seq<TouchPoint>, state: TouchState) -> Option<int>
    decreases touches.len(),
{
    if touches.len() == 0 {
        None
    } else {
        match first_touch(touches.drop_last(), state) {
            Some(index) => Some(index),
            None => if touches.last().state == state {
                Some(touches.len() - 1)
            } else {
                None
            },
        }
    }
}

proof fn lemma_first_touch_prefix(touches: Seq<TouchPoint>, state: TouchState, n: int)
    requires
        0 <= n <= touches.len(),
        first_touch(touches.take(n), state) is Some,
    ensures
        first_touch(touches, state) == first_touch(touches.take(n), state),
    decreases touches.len() - n,
{
    if n == touches.len() {
        assert(touches.take(n) =~= touches);
    } else {
        assert(touches.take(n + 1).drop_last() =~= touches.take(n));
        lemma_first_touch_prefix(touches, state, n + 1);
    }
}

/// Finds the first finger that does `state`.
pub fn find_touch(touches: &Vec<TouchPoint>, state: TouchState) -> (found: Option<usize>)
    ensures
        match found {
            Some(index) => index < touches@.len() && first_touch(touches@, state) == Some(
                index as int,
            ),
            None => first_touch(touches@, state) is None,
        },
{
    let mut i: usize = 0;
    while i < touches.len()
        invariant
            i <= touches@.len(),
            first_touch(touches@.take(i as int), state) is None,
        decreases touches@.len() - i,
    {
        proof {
            let next = touches@.take(i + 1);
            assert(next.drop_last() =~= touches@.take(i as int));
            assert(next.last() == touches@[i as int]);
        }
        if touches[i].state == state {
            proof {
                lemma_first_touch_prefix(touches@, state, i + 1);
            }
            return Some(i);
        }
        i = i + 1;
    }
    assert(touches@.take(i as int) =~= touches@);
    None
}

/// How touches begin to be handled.
#[derive(Clone, Copy, PartialEq, Eq, Structural, Debug)]
pub struct TouchBeginning {
    pub time: u64,
    /// A finger came down: a popup that it is outside of is dismissed.
    pub dismisses_popup: bool,
}

/// Begins to handle touches, before they are reported.
pub fn begin_touch(touches: &Vec<TouchPoint>) -> (beginning: TouchBeginning)
    requires
        touches@.len() > 0,
    ensures
        beginning.time == touches@[0].time,
        beginning.dismisses_popup == (first_touch(touches@, TouchState::Start) is Some),
{
    TouchBeginning {
        time: touches[0].time,
        dismisses_popup: find_touch(touches, TouchState::Start).is_some(),
    }
}

/// Something that touches lead to after they were reported.
#[derive(Clone, Copy, PartialEq, Eq, Structural, Debug)]
pub enum DragAction {
    /// Drop what is dragged where the finger is.
    Drop(usize),
    /// Drag where the finger is.
    Drag(usize),
    DragEnd,
    /// Go on to the next state of dragging.
    Cycle,
}

/// What touches lead to while something is dragged: a finger that was lifted drops it,
/// else a finger that moves drags it.
pub open spec fn drag_actions(touches: Seq<TouchPoint>, dragging: bool) -> Seq<DragAction> {
    if !dragging {
        seq![]
    } else {
        match first_touch(touches, TouchState::Stop) {
            Some(index) => seq![
                DragAction::Drop(index as usize),
                DragAction::Cycle,
                DragAction::DragEnd,
                DragAction::Cycle,
            ],
            None => match first_touch(touches, TouchState::Move) {
                Some(index) => seq![DragAction::Drag(index as usize), DragAction::Cycle],
                None => seq![],
            },
        }
    }
}

/// Lists what touches lead to while something is dragged.
pub fn drag_touch(touches: &Vec<TouchPoint>, dragging: bool) -> (actions: Vec<DragAction>)
    ensures
        actions@ == drag_actions(touches@, dragging),
{
    let mut actions: Vec<DragAction> = Vec::new();
    if dragging {
        match find_touch(touches, TouchState::Stop) {
            Some(index) => {
                actions.push(DragAction::Drop(index));
                actions.push(DragAction::Cycle);
                actions.push(DragAction::DragEnd);
                actions.push(DragAction::Cycle);
            },
            None => {
                match find_touch(touches, TouchState::Move) {
                    Some(index) => {
                        actions.push(DragAction::Drag(index));
                        actions.push(DragAction::Cycle);
                    },
                    None => {},
                }
            },
        }
    }
    assert(actions@ =~= drag_actions(touches@, dragging));
    actions
}

/// The keyboard is reported as shown again only where it is not yet shown or its height
/// changed: the same message twice is reported once.
pub proof fn law_keyboard_is_reported_once(ime: ImeState, context: InputContext, again: InputContext)
    requires
        again.keyboard_height == context.keyboard_height,
        f64_below_half(again.keyboard_change),
    ensures
        keyboard_actions(keyboard_after(ime, context, true), again, true).len() == 0,
        keyboard_after(keyboard_after(ime, context, true), again, true) == keyboard_after(
            ime,
            context,
            true,
        ),
{
}

/// Hiding is reported exactly where the keyboard was shown, and once.
pub proof fn law_keyboard_is_hidden_once(ime: ImeState, context: InputContext, again: InputContext)
    ensures
        keyboard_actions(ime, context, false).contains(InputAction::KeyboardHidden) == ime.visible,
        !keyboard_after(ime, context, false).visible,
        !keyboard_actions(keyboard_after(ime, context, false), again, false).contains(
            InputAction::KeyboardHidden,
        ),
{
    let actions = keyboard_actions(ime, context, false);
    if ime.visible {
        assert(actions[2] == InputAction::KeyboardHidden);
    }
}

/// What the user did reaches the application: a touch message leads to one action with
/// all of its touches, a long press, a paste, a drag of a handle, a change of the text and
/// an editor action each to one action with what they carry, and to go back is reported.
pub proof fn law_what_the_user_did_is_handed_on(
    ime: ImeState,
    message: FromJavaMessage,
    context: InputContext,
)
    ensures
        ({
            let actions = input_actions(ime, message, context);
            &&& message matches FromJavaMessage::Touch(touches) ==> actions.len() == 1 && actions[0]
                == InputAction::Touch(touches)
            &&& message is BackPressed ==> actions.len() == 1 && actions[0] is BackPressed
            &&& message is LongClick ==> actions.len() == 1 && actions[0] is LongPress && {
                &&& actions[0]->LongPress_x == message->LongClick_x
                &&& actions[0]->LongPress_y == message->LongClick_y
                &&& actions[0]->LongPress_pointer_id == message->LongClick_pointer_id
                &&& actions[0]->LongPress_time == message->LongClick_time
            }
            &&& message is ClipboardPaste ==> actions.len() == 1 && actions[0] is Text && {
                &&& actions[0]->Text_text == message->ClipboardPaste_content
                &&& actions[0]->was_paste
            }
            &&& message is SelectionHandleDrag ==> actions.len() == 1
                && actions[0] is SelectionHandleDrag && {
                &&& actions[0]->SelectionHandleDrag_handle == message->SelectionHandleDrag_handle
                &&& actions[0]->SelectionHandleDrag_phase == message->SelectionHandleDrag_phase
                &&& actions[0]->SelectionHandleDrag_x == message->SelectionHandleDrag_x
                &&& actions[0]->SelectionHandleDrag_y == message->SelectionHandleDrag_y
                &&& actions[0]->SelectionHandleDrag_time == message->SelectionHandleDrag_time
            }
            &&& message is ImeTextStateChanged ==> actions.len() == 1 && actions[0] is TextState
                && {
                &&& actions[0]->TextState_text == message->full_text
                &&& actions[0]->TextState_selection_start
                    == message->ImeTextStateChanged_selection_start
                &&& actions[0]->TextState_selection_end
                    == message->ImeTextStateChanged_selection_end
                &&& actions[0]->composition is Some <==> message->composing_start >= 0
                    && message->composing_end >= 0
                &&& actions[0]->composition matches Some(part) ==> part.0
                    == message->composing_start && part.1 == message->composing_end
            }
            &&& message is ImeEditorAction ==> actions.len() == 1 && actions[0] is ImeAction
                && actions[0]->ImeAction_action_code == message->ImeEditorAction_action_code
            &&& message is KeyUp ==> actions.len() == 1 && actions[0] is KeyUp
                && actions[0]->KeyUp_key == context.key
        }),
{
}

/// A character is handed on exactly where it is one: no half of a surrogate pair, and
/// within the range of Unicode.
pub proof fn law_characters_are_handed_on(ime: ImeState, character: u32, context: InputContext)
    ensures
        ({
            let actions = input_actions(ime, FromJavaMessage::Character { character }, context);
            let is_one = character <= 0x10_ffff && !(0xd800 <= character <= 0xdfff);
            &&& is_one ==> actions.len() == 1 && actions[0] == InputAction::Character(character)
            &&& !is_one ==> actions.len() == 0
        }),
{
}

/// A known key that goes down without control and alt is reported as it is; to go back is
/// reported besides. With one of them, C, X and V stand for copying, cutting and pasting,
/// and any other key for nothing. An unknown key leads to nothing.
pub proof fn law_keys_go_down(key: KeyCode, modifiers: KeyModifiers)
    ensures
        ({
            let actions = key_down_actions(key, modifiers);
            let plain = !modifiers.control && !modifiers.alt;
            &&& key is Unknown ==> actions.len() == 0
            &&& !(key is Unknown) && plain ==> actions.len() > 0 && actions.last()
                == InputAction::KeyDown { key, modifiers }
            &&& plain && key is Back ==> actions.len() == 2 && actions[0] is BackPressed
            &&& plain && !(key is Back) && !(key is Unknown) ==> actions.len() == 1
            &&& !plain ==> forall|i: int|
                0 <= i < actions.len() ==> !(#[trigger] actions[i] is KeyDown)
            &&& !plain && key is KeyC ==> actions.len() == 1 && actions[0] is Copy
            &&& !plain && key is KeyX ==> actions.len() == 1 && actions[0] is Cut
            &&& !plain && key is KeyV ==> actions.len() == 1 && actions[0] is Paste
            &&& !plain && !(key is KeyC) && !(key is KeyX) && !(key is KeyV) ==> actions.len() == 0
        }),
{
}

/// Each key is held down exactly where the meta state has a bit of its mask, whatever the
/// other masks are.
pub proof fn law_held_keys_follow_their_masks(masks: MetaMasks, meta_state: u32)
    ensures
        masks.held(meta_state).shift <==> meta_state & masks.shift != 0,
        masks.held(meta_state).control <==> meta_state & masks.control != 0,
        masks.held(meta_state).alt <==> meta_state & masks.alt != 0,
        !masks.held(meta_state).logo,
{
}

/// The keyboard is reported with its height when it comes up and when it changes by half a
/// point or more; when it goes, that it was dismissed and hidden is reported exactly where
/// it was up. What is known of it afterwards is what was reported.
pub proof fn law_keyboard_follows_its_messages(ime: ImeState, context: InputContext)
    ensures
        ({
            let shown = keyboard_actions(ime, context, true);
            let hidden = keyboard_actions(ime, context, false);
            let reported = !ime.visible || !f64_below_half(context.keyboard_change);
            &&& reported ==> shown.len() == 1 && shown[0] == InputAction::KeyboardShown {
                height: context.keyboard_height,
            }
            &&& !reported ==> shown.len() == 0
            &&& keyboard_after(ime, context, true).visible
            &&& reported ==> keyboard_after(ime, context, true).height == context.keyboard_height
            &&& !reported ==> keyboard_after(ime, context, true).height == ime.height
            &&& hidden.len() > 0 && hidden[0] is ForgetImeConfig
            &&& hidden.contains(InputAction::KeyboardHidden) <==> ime.visible
            &&& hidden.contains(InputAction::ImeDismissed) <==> ime.visible
            &&& !keyboard_after(ime, context, false).visible
        }),
{
    let hidden = keyboard_actions(ime, context, false);
    if ime.visible {
        assert(hidden[1] == InputAction::ImeDismissed);
        assert(hidden[2] == InputAction::KeyboardHidden);
    }
}

/// Only messages about the keyboard change what is known of it.
pub proof fn law_other_input_leaves_the_keyboard(
    ime: ImeState,
    message: FromJavaMessage,
    context: InputContext,
)
    ensures
        !(message is ResizeTextIME) ==> ime_after(ime, message, context) == ime,
        message is ResizeTextIME ==> ime_after(ime, message, context).visible
            == message->is_open,
{
}

/// To copy and to cut put something on the clipboard, to select all is control and A, and
/// any other action of the clipboard leads to nothing.
pub proof fn law_clipboard_actions_by_name(action: Seq<char>)
    ensures
        action == "copy"@ ==> clipboard_actions(action) == seq![InputAction::CopyToClipboard],
        action == "cut"@ ==> clipboard_actions(action) == seq![InputAction::CutToClipboard],
        action == "select_all"@ ==> clipboard_actions(action).len() == 1 && clipboard_actions(
            action,
        )[0] is KeyDown && clipboard_actions(action)[0]->KeyDown_key is KeyA && clipboard_actions(
            action,
        )[0]->KeyDown_modifiers.control,
        action != "copy"@ && action != "cut"@ && action != "select_all"@ ==> clipboard_actions(
            action,
        ).len() == 0,
{
    reveal_strlit("copy");
    reveal_strlit("cut");
    reveal_strlit("select_all");
    assert("copy"@.len() == 4 && "cut"@.len() == 3 && "select_all"@.len() == 10);
}

/// The finger that is found does what is looked for, and none before it does; where none
/// is found, none does.
pub proof fn law_first_touch_is_the_first(touches: Seq<TouchPoint>, state: TouchState)
    ensures
        match first_touch(touches, state) {
            Some(found) => {
                &&& 0 <= found < touches.len()
                &&& touches[found].state == state
                &&& forall|i: int| 0 <= i < found ==> (#[trigger] touches[i]).state != state
            },
            None => forall|i: int| 0 <= i < touches.len() ==> (#[trigger] touches[i]).state != state,
        },
    decreases touches.len(),
{
    if touches.len() > 0 {
        let before = touches.drop_last();
        law_first_touch_is_the_first(before, state);
        assert(forall|i: int| 0 <= i < before.len() ==> before[i] == touches[i]);
    }
}

/// While something is dragged, it is dropped exactly where a finger was lifted, and then
/// the drag ends; it is dragged on exactly where none was lifted and one moves. Nothing
/// happens where nothing is dragged.
pub proof fn law_drags_follow_the_fingers(touches: Seq<TouchPoint>, dragging: bool)
    requires
        touches.len() <= usize::MAX,
    ensures
        ({
            let actions = drag_actions(touches, dragging);
            let lifted = exists|i: int|
                0 <= i < touches.len() && (#[trigger] touches[i]).state is Stop;
            let moves = exists|i: int|
                0 <= i < touches.len() && (#[trigger] touches[i]).state is Move;
            &&& !dragging ==> actions.len() == 0
            &&& dragging && lifted ==> {
                &&& actions.len() == 4
                &&& actions[0] is Drop && touches[actions[0]->Drop_0 as int].state is Stop
                &&& actions[1] is Cycle && actions[2] is DragEnd && actions[3] is Cycle
            }
            &&& dragging && !lifted && moves ==> {
                &&& actions.len() == 2
                &&& actions[0] is Drag && touches[actions[0]->Drag_0 as int].state is Move
                &&& actions[1] is Cycle
            }
            &&& dragging && !lifted && !moves ==> actions.len() == 0
        }),
{
    law_first_touch_is_the_first(touches, TouchState::Stop);
    law_first_touch_is_the_first(touches, TouchState::Move);
}

} // verus!
