//! Campaign slot selection: slot names, the name editor that the keyboard
//! drives, and the labels that show the editor's content.

use vstd::prelude::*;
use crate::menu::cleanup::{despawn_roots, ids_of_kinds, EntityKind, WorldEntity};
use crate::menu::types::{any_pressed, button_pressed, GameState, Interaction};
use crate::text::{
    cut_on_boundary, digit_char, lemma_trimmed_fixed, lemma_trimmed_idempotent, lemma_truncate_bytes_fits, decimal, push_decimal,
    push_str, trim, trimmed, truncate_bytes,
    truncate_to_bytes, utf8_len,
};

verus! {

/// Longest campaign name, in UTF-8 bytes.
pub const MAX_NAME_LEN: usize = 28;

/// The campaign slot being edited and the name typed so far.
#[derive(Clone, Debug)]
pub struct CampaignNameEditor {
    pub selected_slot: u8,
    pub buffer: Vec<char>,
}

/// Keys that edit a campaign name.
#[derive(Clone, Copy, Debug, PartialEq, Eq, Structural)]
pub enum NameKey {
    Backspace,
    Space,
    Minus,
    /// A digit key, 0 to 9.
    Digit(u8),
    /// A letter key, 0 for A to 25 for Z.
    Letter(u8),
}

/// The name a slot shows before it is given one.
pub open spec fn default_slot_name(slot: u8) -> Seq<char> {
    "Campaign Slot "@ + decimal(slot as nat)
}

/// The name a slot shows before it is given one: "Campaign Slot N".
pub fn default_campaign_slot_name(slot: u8) -> (name: Vec<char>)
    ensures
        name@ == default_slot_name(slot),
{
    let mut name: Vec<char> = Vec::new();
    push_str(&mut name, "Campaign Slot ");
    push_decimal(&mut name, slot as u64);
    name
}

/// Selects `slot` for editing and loads its saved name, or its default name
/// when it has none.
pub fn set_editor_from_slot(editor: &mut CampaignNameEditor, slot: u8, saved_name: Option<Vec<char>>)
    ensures
        final(editor).selected_slot == slot,
        final(editor).buffer@ == (match saved_name {
            Some(n) => n@,
            None => default_slot_name(slot),
        }),
{
    editor.selected_slot = slot;
    editor.buffer = match saved_name {
        Some(n) => n,
        None => default_campaign_slot_name(slot),
    };
}

/// The number of keys that type a character.
pub open spec fn typing_key_count() -> int {
    38
}

/// The typing keys in the order they are read: space, minus, 0 to 9, A to Z.
pub open spec fn typing_key(i: int) -> NameKey {
    if i == 0 {
        NameKey::Space
    } else if i == 1 {
        NameKey::Minus
    } else if i < 12 {
        NameKey::Digit((i - 2) as u8)
    } else {
        NameKey::Letter((i - 12) as u8)
    }
}

/// The character that the `i`-th typing key types.
pub open spec fn typing_char(i: int) -> char {
    if i == 0 {
        ' '
    } else if i == 1 {
        '-'
    } else if i < 12 {
        (48 + (i - 2)) as char
    } else {
        (65 + (i - 12)) as char
    }
}

/// The characters typed by the first `n` typing keys among those pressed,
/// in reading order.
pub open spec fn typed_chars(pressed: Seq<NameKey>, n: int) -> Seq<char>
    decreases n,
{
    if n <= 0 {
        Seq::empty()
    } else if pressed.contains(typing_key(n - 1)) {
        typed_chars(pressed, n - 1).push(typing_char(n - 1))
    } else {
        typed_chars(pressed, n - 1)
    }
}

/// The name after backspace (when pressed) removed its last character and
/// every pressed typing key appended its character.
pub open spec fn edited_name(buffer: Seq<char>, pressed: Seq<NameKey>) -> Seq<char> {
    let erased = if pressed.contains(NameKey::Backspace) && buffer.len() > 0 {
        buffer.drop_last()
    } else {
        buffer
    };
    erased + typed_chars(pressed, typing_key_count())
}

/// The `i`-th typing key and its character.
fn typing_key_at(i: u8) -> (kc: (NameKey, char))
    requires
        i < 38,
    ensures
        kc.0 == typing_key(i as int),
        kc.1 == typing_char(i as int),
{
    if i == 0 {
        (NameKey::Space, ' ')
    } else if i == 1 {
        (NameKey::Minus, '-')
    } else if i < 12 {
        (NameKey::Digit(i - 2), (48u8 + (i - 2)) as char)
    } else {
        (NameKey::Letter(i - 12), (65u8 + (i - 12)) as char)
    }
}

/// Whether `key` is among the pressed keys.
fn key_pressed(just_pressed: &Vec<NameKey>, key: NameKey) -> (pressed: bool)
    ensures
        pressed == just_pressed@.contains(key),
{
    let mut i: usize = 0;
    while i < just_pressed.len()
        invariant
            i <= just_pressed@.len(),
            forall|j: int| 0 <= j < i ==> just_pressed@[j] != key,
        decreases just_pressed@.len() - i,
    {
        if just_pressed[i] == key {
            return true;
        }
        i = i + 1;
    }
    false
}

/// Appends `ch` when `key` was pressed.
pub fn append_if_pressed(just_pressed: &Vec<NameKey>, key: NameKey, ch: char, out: &mut Vec<char>)
    ensures
        final(out)@ == (if just_pressed@.contains(key) {
            old(out)@.push(ch)
        } else {
            old(out)@
        }),
{
    if key_pressed(just_pressed, key) {
        out.push(ch);
    }
}

/// Whether the edit can be applied: the edited name fits in memory, and when
/// it is too long its cut at the byte limit falls between two characters.
pub open spec fn name_edit_applies(buffer: Seq<char>, pressed: Seq<NameKey>) -> bool {
    let edited = edited_name(buffer, pressed);
    &&& utf8_len(edited) <= usize::MAX
    &&& cut_on_boundary(edited, MAX_NAME_LEN as nat)
}

/// Applies one frame of keyboard input to the name: backspace removes the
/// last character, each pressed typing key appends its character (space,
/// minus, digits, then letters), and the result is cut to the byte limit.
pub fn campaign_name_input_system(editor: &mut CampaignNameEditor, just_pressed: &Vec<NameKey>)
    requires
        name_edit_applies(old(editor).buffer@, just_pressed@),
    ensures
        final(editor).selected_slot == old(editor).selected_slot,
        final(editor).buffer@ == truncate_bytes(
            edited_name(old(editor).buffer@, just_pressed@),
            MAX_NAME_LEN as nat,
        ),
{
    if key_pressed(just_pressed, NameKey::Backspace) {
        editor.buffer.pop();
    }
    let ghost erased = editor.buffer@;
    let mut i: u8 = 0;
    while i < 38
        invariant
            i <= 38,
            editor.selected_slot == old(editor).selected_slot,
            editor.buffer@ == erased + typed_chars(just_pressed@, i as int),
        decreases 38 - i,
    {
        let (key, ch) = typing_key_at(i);
        append_if_pressed(just_pressed, key, ch, &mut editor.buffer);
        proof {
            assert(erased + typed_chars(just_pressed@, i as int).push(ch) =~= (erased + typed_chars(
                just_pressed@,
                i as int,
            )).push(ch));
        }
        i = i + 1;
    }
    truncate_to_bytes(&mut editor.buffer, MAX_NAME_LEN);
}

/// The label of the selected slot.
pub open spec fn slot_label(slot: u8) -> Seq<char> {
    "Selected Slot: "@ + decimal(slot as nat)
}

/// The label of the name being edited.
pub open spec fn name_label(buffer: Seq<char>) -> Seq<char> {
    "Name: "@ + buffer
}

/// The two labels that show the editor, recomputed only when the editor
/// changed: the selected slot, then the name.
pub fn campaign_name_display_system(editor: &CampaignNameEditor, changed: bool) -> (labels: Option<
    (Vec<char>, Vec<char>),
>)
    ensures
        labels is None <==> !changed,
        labels matches Some(l) ==> l.0@ == slot_label(editor.selected_slot) && l.1@ == name_label(
            editor.buffer@,
        ),
{
    if !changed {
        return None;
    }
    let mut slot_text: Vec<char> = Vec::new();
    push_str(&mut slot_text, "Selected Slot: ");
    push_decimal(&mut slot_text, editor.selected_slot as u64);
    let mut name_text: Vec<char> = Vec::new();
    push_str(&mut name_text, "Name: ");
    let mut i: usize = 0;
    while i < editor.buffer.len()
        invariant
            i <= editor.buffer@.len(),
            name_text@ == "Name: "@ + editor.buffer@.subrange(0, i as int),
        decreases editor.buffer@.len() - i,
    {
        name_text.push(editor.buffer[i]);
        proof {
            assert(editor.buffer@.subrange(0, i + 1) =~= editor.buffer@.subrange(0, i as int).push(
                editor.buffer@[i as int],
            ));
            assert("Name: "@ + editor.buffer@.subrange(0, i + 1) =~= ("Name: "@ + editor.buffer@.subrange(
                0,
                i as int,
            )).push(editor.buffer@[i as int]));
        }
        i = i + 1;
    }
    proof {
        assert(editor.buffer@.subrange(0, editor.buffer@.len() as int) =~= editor.buffer@);
    }
    Some((slot_text, name_text))
}

/// The name that saving or starting a slot records: the typed name without
/// surrounding white space, or the slot's default name when nothing is left.
pub open spec fn name_to_save(buffer: Seq<char>, slot: u8) -> Seq<char> {
    if trimmed(buffer).len() == 0 {
        default_slot_name(slot)
    } else {
        trimmed(buffer)
    }
}

/// The name that saving or starting the selected slot records.
pub fn campaign_name_to_save(editor: &CampaignNameEditor) -> (name: Vec<char>)
    ensures
        name@ == name_to_save(editor.buffer@, editor.selected_slot),
{
    let t = trim(&editor.buffer);
    if t.len() == 0 {
        default_campaign_slot_name(editor.selected_slot)
    } else {
        t
    }
}

/// The slot whose editor load counts this frame: the slot buttons are
/// handled in order, and each press loads its slot into the editor (with
/// `set_editor_from_slot`), so the last pressed slot wins.
pub fn campaign_slot_choice(
    slot_1: &Vec<Interaction>,
    slot_2: &Vec<Interaction>,
    slot_3: &Vec<Interaction>,
) -> (slot: Option<u8>)
    ensures
        slot == (if any_pressed(slot_3@) {
            Some(3u8)
        } else if any_pressed(slot_2@) {
            Some(2u8)
        } else if any_pressed(slot_1@) {
            Some(1u8)
        } else {
            None
        }),
{
    let mut slot: Option<u8> = None;
    if button_pressed(slot_1) {
        slot = Some(1);
    }
    if button_pressed(slot_2) {
        slot = Some(2);
    }
    if button_pressed(slot_3) {
        slot = Some(3);
    }
    slot
}

/// What the campaign slot screen asks of the save files this frame.
#[derive(Clone, Debug)]
pub struct CampaignSelectRequests {
    /// The slot the requests are for.
    pub slot: u8,
    /// The mission to record with the slot.
    pub mission: u32,
    /// Save the slot under this name; once saved, the editor shows it.
    pub save_name: Option<Vec<char>>,
    /// Start a run in the slot under this name: save it, load the slot, and
    /// when it loads, play it in campaign mode.
    pub start_name: Option<Vec<char>>,
}

/// Save Name and Start act on the selected slot, under the typed name
/// without surrounding white space (the slot's default name when nothing is
/// left), recording the slot's saved mission or the first one.
pub fn campaign_select_button_system(
    editor: &CampaignNameEditor,
    saved_mission: Option<u32>,
    save_name: &Vec<Interaction>,
    start: &Vec<Interaction>,
) -> (requests: CampaignSelectRequests)
    ensures
        requests.slot == editor.selected_slot,
        requests.mission == (match saved_mission {
            Some(m) => m,
            None => 1,
        }),
        match requests.save_name {
            Some(n) => any_pressed(save_name@) && n@ == name_to_save(editor.buffer@, editor.selected_slot),
            None => !any_pressed(save_name@),
        },
        match requests.start_name {
            Some(n) => any_pressed(start@) && n@ == name_to_save(editor.buffer@, editor.selected_slot),
            None => !any_pressed(start@),
        },
{
    let mission: u32 = match saved_mission {
        Some(m) => m,
        None => 1,
    };
    let save_requested = if button_pressed(save_name) {
        Some(campaign_name_to_save(editor))
    } else {
        None
    };
    let start_requested = if button_pressed(start) {
        Some(campaign_name_to_save(editor))
    } else {
        None
    };
    CampaignSelectRequests {
        slot: editor.selected_slot,
        mission,
        save_name: save_requested,
        start_name: start_requested,
    }
}

/// The screen's next state: the main menu when Back was pressed (it is
/// handled last, so it wins), else play when the started slot loaded.
pub fn campaign_select_next_state(start_loaded: bool, back: &Vec<Interaction>) -> (next_state: Option<GameState>)
    ensures
        next_state == (if any_pressed(back@) {
            Some(GameState::MainMenu)
        } else if start_loaded {
            Some(GameState::Playing)
        } else {
            None
        }),
{
    if button_pressed(back) {
        Some(GameState::MainMenu)
    } else if start_loaded {
        Some(GameState::Playing)
    } else {
        None
    }
}

/// Whether a slot can be resumed, as the slot card words it.
pub open spec fn slot_availability(loadable: bool, exists: bool) -> Seq<char> {
    if loadable {
        "resume"@
    } else if exists {
        "not loadable"@
    } else {
        "empty"@
    }
}

/// The slot card's mission words.
pub open spec fn mission_caption(mission_index: Option<u32>) -> Seq<char> {
    match mission_index {
        Some(m) => "mission "@ + decimal(m as nat),
        None => "new run"@,
    }
}

/// The slot card's save-time words.
pub open spec fn saved_caption(saved_at_unix: Option<u64>) -> Seq<char> {
    match saved_at_unix {
        Some(t) => "saved "@ + decimal(t as nat),
        None => "unsaved"@,
    }
}

/// The slot card's title: "SLOT N • name".
pub open spec fn slot_card_title(slot: u8, name: Seq<char>) -> Seq<char> {
    "SLOT "@ + decimal(slot as nat) + " \u{2022} "@ + name
}

/// The slot card's status line: status, availability, mission, and save
/// time, separated by bullets.
pub open spec fn slot_card_status(
    status: Seq<char>,
    loadable: bool,
    exists: bool,
    mission_index: Option<u32>,
    saved_at_unix: Option<u64>,
) -> Seq<char> {
    status + " \u{2022} "@ + slot_availability(loadable, exists) + " \u{2022} "@ + mission_caption(mission_index)
        + " \u{2022} "@ + saved_caption(saved_at_unix)
}

/// What a slot's save file says of it, as the slot card shows it.
#[derive(Clone, Debug)]
pub struct CampaignSlotInfo {
    pub slot: u8,
    /// The name the slot was saved under, if any.
    pub name: Option<Vec<char>>,
    /// The save file's status word.
    pub status: Vec<char>,
    pub loadable: bool,
    pub exists: bool,
    pub mission_index: Option<u32>,
    pub saved_at_unix: Option<u64>,
}

/// The title and status line of a slot card; an unnamed slot shows its
/// default name.
pub fn campaign_slot_card(info: CampaignSlotInfo) -> (card: (Vec<char>, Vec<char>))
    ensures
        card.0@ == slot_card_title(
            info.slot,
            match info.name {
                Some(n) => n@,
                None => default_slot_name(info.slot),
            },
        ),
        card.1@ == slot_card_status(
            info.status@,
            info.loadable,
            info.exists,
            info.mission_index,
            info.saved_at_unix,
        ),
{
    let CampaignSlotInfo { slot, name, status, loadable, exists, mission_index, saved_at_unix } = info;
    let mut name = match name {
        Some(n) => n,
        None => default_campaign_slot_name(slot),
    };
    let mut title: Vec<char> = Vec::new();
    push_str(&mut title, "SLOT ");
    push_decimal(&mut title, slot as u64);
    push_str(&mut title, " \u{2022} ");
    title.append(&mut name);

    let mut line = status;
    push_str(&mut line, " \u{2022} ");
    if loadable {
        push_str(&mut line, "resume");
    } else if exists {
        push_str(&mut line, "not loadable");
    } else {
        push_str(&mut line, "empty");
    }
    push_str(&mut line, " \u{2022} ");
    match mission_index {
        Some(m) => {
            push_str(&mut line, "mission ");
            push_decimal(&mut line, m as u64);
        },
        None => push_str(&mut line, "new run"),
    }
    push_str(&mut line, " \u{2022} ");
    match saved_at_unix {
        Some(t) => {
            push_str(&mut line, "saved ");
            push_decimal(&mut line, t);
        },
        None => push_str(&mut line, "unsaved"),
    }
    (title, line)
}

proof fn lemma_typed_single(key_index: int, n: int)
    requires
        0 <= key_index < 38,
        0 <= n <= 38,
    ensures
        typed_chars(seq![typing_key(key_index)], n) == (if key_index < n {
            seq![typing_char(key_index)]
        } else {
            Seq::<char>::empty()
        }),
    decreases n,
{
    if n > 0 {
        lemma_typed_single(key_index, n - 1);
        let pressed = seq![typing_key(key_index)];
        if pressed.contains(typing_key(n - 1)) {
            let j = choose|j: int| 0 <= j < pressed.len() && pressed[j] == typing_key(n - 1);
            assert(typing_key(n - 1) == typing_key(key_index));
            assert(n - 1 == key_index);
        } else {
            assert(pressed[0] == typing_key(key_index));
            assert(n - 1 != key_index);
        }
    }
}

/// One key at a time: Space types a space, Minus a hyphen, digit key `d`
/// the digit `d`, letter key `k` the `k`-th capital letter, each after what
/// is already typed; Backspace alone removes the last character, if any.
pub proof fn lemma_single_key_edits(buffer: Seq<char>, d: u8, k: u8)
    ensures
        edited_name(buffer, seq![NameKey::Space]) == buffer.push(' '),
        edited_name(buffer, seq![NameKey::Minus]) == buffer.push('-'),
        d < 10 ==> edited_name(buffer, seq![NameKey::Digit(d)]) == buffer.push((48 + d) as char),
        k < 26 ==> edited_name(buffer, seq![NameKey::Letter(k)]) == buffer.push((65 + k) as char),
        buffer.len() > 0 ==> edited_name(buffer, seq![NameKey::Backspace]) == buffer.drop_last(),
        buffer.len() == 0 ==> edited_name(buffer, seq![NameKey::Backspace]).len() == 0,
{
    lemma_typed_single(0, 38);
    assert(!seq![NameKey::Space].contains(NameKey::Backspace)) by {
        if seq![NameKey::Space].contains(NameKey::Backspace) {
            let j = choose|j: int| 0 <= j < 1 && seq![NameKey::Space][j] == NameKey::Backspace;
        }
    }
    assert(edited_name(buffer, seq![NameKey::Space]) =~= buffer.push(' '));
    lemma_typed_single(1, 38);
    assert(!seq![NameKey::Minus].contains(NameKey::Backspace)) by {
        if seq![NameKey::Minus].contains(NameKey::Backspace) {
            let j = choose|j: int| 0 <= j < 1 && seq![NameKey::Minus][j] == NameKey::Backspace;
        }
    }
    assert(edited_name(buffer, seq![NameKey::Minus]) =~= buffer.push('-'));
    if d < 10 {
        lemma_typed_single(2 + d, 38);
        assert(typing_key(2 + d) == NameKey::Digit(d));
        assert(!seq![NameKey::Digit(d)].contains(NameKey::Backspace)) by {
            if seq![NameKey::Digit(d)].contains(NameKey::Backspace) {
                let j = choose|j: int| 0 <= j < 1 && seq![NameKey::Digit(d)][j] == NameKey::Backspace;
            }
        }
        assert(edited_name(buffer, seq![NameKey::Digit(d)]) =~= buffer.push((48 + d) as char));
    }
    if k < 26 {
        lemma_typed_single(12 + k, 38);
        assert(typing_key(12 + k) == NameKey::Letter(k));
        assert(!seq![NameKey::Letter(k)].contains(NameKey::Backspace)) by {
            if seq![NameKey::Letter(k)].contains(NameKey::Backspace) {
                let j = choose|j: int| 0 <= j < 1 && seq![NameKey::Letter(k)][j] == NameKey::Backspace;
            }
        }
        assert(edited_name(buffer, seq![NameKey::Letter(k)]) =~= buffer.push((65 + k) as char));
    }
    assert(typed_chars(seq![NameKey::Backspace], 38) =~= Seq::<char>::empty()) by {
        lemma_typed_none(38);
    }
    assert(seq![NameKey::Backspace][0] == NameKey::Backspace);
    if buffer.len() > 0 {
        assert(edited_name(buffer, seq![NameKey::Backspace]) =~= buffer.drop_last());
    }
}

proof fn lemma_typed_none(n: int)
    requires
        0 <= n <= 38,
    ensures
        typed_chars(seq![NameKey::Backspace], n) == Seq::<char>::empty(),
    decreases n,
{
    if n > 0 {
        lemma_typed_none(n - 1);
        if seq![NameKey::Backspace].contains(typing_key(n - 1)) {
            let j = choose|j: int| 0 <= j < 1 && seq![NameKey::Backspace][j] == typing_key(n - 1);
            assert(seq![NameKey::Backspace][j] == NameKey::Backspace);
        }
    }
}

/// A default slot name has no white space to trim.
pub proof fn lemma_default_name_trimmed(slot: u8)
    ensures
        trimmed(default_slot_name(slot)) == default_slot_name(slot),
        default_slot_name(slot).len() > 0,
{
    reveal_strlit("Campaign Slot ");
    let prefix = "Campaign Slot "@;
    let digits = decimal(slot as nat);
    let name = default_slot_name(slot);
    assert(digits.len() > 0 && digits.last() == digit_char((slot % 10) as int));
    assert(name[0] == prefix[0]);
    assert(name.last() == digits.last());
    lemma_trimmed_fixed(name);
}

/// Saving a name and then starting the run records the same name: the name
/// to save, saved as the typed name, is again the name to save.
pub proof fn lemma_saved_name_is_kept(buffer: Seq<char>, slot: u8)
    ensures
        name_to_save(name_to_save(buffer, slot), slot) == name_to_save(buffer, slot),
{
    lemma_trimmed_idempotent(buffer);
    lemma_default_name_trimmed(slot);
}

/// A name that went through the editor never takes more than the byte
/// limit.
pub proof fn lemma_edited_name_fits(buffer: Seq<char>, pressed: Seq<NameKey>)
    ensures
        utf8_len(truncate_bytes(edited_name(buffer, pressed), MAX_NAME_LEN as nat)) <= MAX_NAME_LEN,
{
    lemma_truncate_bytes_fits(edited_name(buffer, pressed), MAX_NAME_LEN as nat);
}

/// Despawns the campaign slot screen: the entities to remove.
pub fn cleanup_campaign_select_menu(entities: &Vec<WorldEntity>) -> (despawn: Vec<u64>)
    ensures
        despawn@ == ids_of_kinds(entities@, seq![EntityKind::CampaignSelectRoot]),
{
    despawn_roots(entities, EntityKind::CampaignSelectRoot)
}

} // verus!
