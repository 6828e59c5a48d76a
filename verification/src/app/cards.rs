//! The cards that show the recommendations: their heights, their buttons, and
//! the previews of fixes.
use crate::coordinator;
use crate::coordinator::{
    recommended_choice_index, ActionView, ChoiceView, RecommendationChoice, RecommendationSet,
    RecommendedAction, SetView,
};
use crate::editing;
use crate::text;
use crate::text::{byte_count, chars_of, concat3, len_utf8, lines, string_between, trim};
use vstd::prelude::*;

verus! {

/// What a card shows of its choice: what its first action types.
pub open spec fn card_text(choice: ChoiceView) -> Seq<char> {
    if choice.actions.len() == 0 {
        choice.title
    } else {
        match choice.actions[0] {
            ActionView::Send { parent, input } => input,
            ActionView::OpenAndSend { target, parent, input, agent, cwd, title } => {
                let label = match agent {
                    Some(agent) => agent,
                    None => "agent"@,
                };
                label + ": "@ + input
            },
        }
    }
}

/// The columns that the text of a card has in a panel of `panel_width` columns.
pub open spec fn card_columns(panel_width: u16) -> nat {
    if panel_width > 10 {
        (panel_width - 10) as nat
    } else {
        1
    }
}

/// The rows that a line of `count` characters takes.
pub open spec fn line_rows(count: nat, width: nat) -> nat {
    if count == 0 {
        1
    } else {
        ((count + width - 1) / width as int) as nat
    }
}

/// The rows that the first `n` lines take.
pub open spec fn text_rows(list: Seq<Seq<char>>, width: nat, n: int) -> int
    decreases n,
{
    if n <= 0 || n > list.len() {
        0
    } else {
        text::fitting(text_rows(list, width, n - 1) + line_rows(list[n - 1].len(), width))
    }
}

/// The height of a card: its text in rows, and six rows for the rest.
pub open spec fn card_height(choice: ChoiceView, panel_width: u16) -> int {
    let list = text::lines_of(card_text(choice));
    let rows = text_rows(list, card_columns(panel_width), list.len() as int);
    text::fitting(
        6 + if rows >= 1 {
            rows
        } else {
            1
        },
    )
}

fn shown_text(choice: &RecommendationChoice) -> (text: String)
    ensures
        text@ == card_text(choice@),
{
    if choice.actions.len() == 0 {
        return choice.title.clone();
    }
    assert(choice@.actions[0] == choice.actions@[0]@);
    match &choice.actions[0] {
        RecommendedAction::Send { parent: _, input } => input.clone(),
        RecommendedAction::OpenAndSend { target: _, parent: _, input, agent, cwd: _, title: _ } => {
            let label = match agent {
                Some(agent) => agent.as_str(),
                None => "agent",
            };
            concat3(label, ": ", input.as_str())
        },
    }
}

/// The height of the card of `choice` in a panel of `panel_width` columns.
pub fn rec_card_height(choice: &RecommendationChoice, panel_width: u16) -> (height: usize)
    ensures
        height == card_height(choice@, panel_width),
{
    let width: usize = if panel_width > 10 {
        (panel_width - 10) as usize
    } else {
        1
    };
    let text = shown_text(choice);
    let list = lines(text.as_str());
    let ghost all = text::texts(list@);
    assert(all.len() == list@.len());
    let mut rows: usize = 0;
    let mut i: usize = 0;
    while i < list.len()
        invariant
            i <= list@.len(),
            all == text::texts(list@),
            all.len() == list@.len(),
            1 <= width == card_columns(panel_width),
            rows == text_rows(all, width as nat, i as int),
        decreases list@.len() - i,
    {
        assert(all[i as int] == list@[i as int]@);
        let count: usize = list[i].as_str().unicode_len();
        let taken: usize = if count == 0 {
            1
        } else {
            (count - 1) / width + 1
        };
        proof {
            if count > 0 {
                lemma_ceiling(count as int, width as int);
            }
        }
        rows = rows.saturating_add(taken);
        i += 1;
    }
    (if rows >= 1 {
        rows
    } else {
        1
    }).saturating_add(6)
}

proof fn lemma_ceiling(count: int, width: int)
    requires
        count > 0,
        width > 0,
    ensures
        (count - 1) / width + 1 == (count + width - 1) / width,
        (count - 1) / width + 1 <= count,
{
    assert((count - 1) / width + 1 == (count - 1 + width) / width) by (nonlinear_arith)
        requires
            width > 0,
    ;
    assert((count - 1) / width <= count - 1) by (nonlinear_arith)
        requires
            width > 0,
            count > 0,
    ;
}

/// The heights of the first `n` cards together, as a 16 bit number.
pub open spec fn cards_total(choices: Seq<ChoiceView>, panel_width: u16, n: int) -> u16
    decreases n,
{
    if n <= 0 || n > choices.len() {
        0
    } else {
        vstd::wrapping::u16_specs::wrapping_add(
            cards_total(choices, panel_width, n - 1),
            card_height(choices[n - 1], panel_width) as u16,
        )
    }
}

/// The most rows that the panel takes of a pane of `rows` rows: two fifths of
/// them, but eight in a pane too low for that.
pub open spec fn panel_room(rows: u16) -> int {
    let share = rows * 2 / 5;
    if share > 8 {
        share
    } else {
        8
    }
}

/// The height of the panel: as much as its cards and a hint need, at most two
/// fifths of the pane, and never less than eight rows, not even in a pane of
/// fewer than twenty rows, of which eight are more than two fifths.
pub open spec fn panel_height(set: Option<SetView>, rows: u16, cols: u16) -> u16 {
    match set {
        None => 0,
        Some(set) => {
            let cards = cards_total(set.choices, cols, set.choices.len() as int);
            let needed: int = if cards < u16::MAX {
                cards + 1
            } else {
                cards as int
            };
            let room = panel_room(rows);
            let height = if needed < room {
                needed
            } else {
                room
            };
            (if height > 8 {
                height
            } else {
                8
            }) as u16
        },
    }
}

/// The height of the panel of recommendations in a pane of `rows` rows and
/// `cols` columns. It grows with what the cards need, up to two fifths of the
/// rows; a pane of fewer than twenty rows still gives it eight.
pub fn rec_panel_height(set: &Option<RecommendationSet>, rows: u16, cols: u16) -> (height: u16)
    ensures
        height == panel_height(set_seen(*set), rows, cols),
        set is None ==> height == 0,
        set is Some ==> 8 <= height <= panel_room(rows),
        rows >= 20 ==> height <= rows * 2 / 5,
{
    let set = match set {
        Some(set) => set,
        None => return 0,
    };
    let ghost choices = set@.choices;
    let mut total: u16 = 0;
    let mut i: usize = 0;
    while i < set.choices.len()
        invariant
            i <= set.choices@.len(),
            choices == coordinator::choices_view(set.choices@),
            total == cards_total(choices, cols, i as int),
        decreases set.choices@.len() - i,
    {
        assert(choices[i as int] == set.choices@[i as int]@);
        let height: usize = rec_card_height(&set.choices[i], cols);
        #[verifier::truncate]
        let part: u16 = height as u16;
        total = total.wrapping_add(part);
        i += 1;
    }
    let needed: u16 = total.saturating_add(1);
    let share: u16 = (rows as u32 * 2 / 5) as u16;
    let room: u16 = if share > 8 {
        share
    } else {
        8
    };
    let height: u16 = if needed < room {
        needed
    } else {
        room
    };
    if height > 8 {
        height
    } else {
        8
    }
}

/// What a set that may be there says.
pub open spec fn set_seen(set: Option<RecommendationSet>) -> Option<SetView> {
    match set {
        Some(set) => Some(set@),
        None => None,
    }
}

/// The row where the card at `i` starts.
pub open spec fn card_top(choices: Seq<ChoiceView>, panel_width: u16, i: int) -> int
    decreases i,
{
    if i <= 0 || i > choices.len() {
        0
    } else {
        text::fitting(
            card_top(choices, panel_width, i - 1) + card_height(choices[i - 1], panel_width),
        )
    }
}

/// The scroll position that shows the selected card.
pub open spec fn scrolled_to(
    choices: Seq<ChoiceView>,
    selected: int,
    scroll: int,
    height: int,
    panel_width: u16,
) -> int {
    if 0 <= selected < choices.len() {
        let top = card_top(choices, panel_width, selected);
        let bottom = text::fitting(top + card_height(choices[selected], panel_width));
        if top < scroll || bottom > scroll + height {
            top
        } else {
            scroll
        }
    } else {
        scroll
    }
}

/// The scroll position that shows the card at `selected`.
pub fn scroll_to_card(
    set: &RecommendationSet,
    selected: usize,
    scroll: usize,
    height: usize,
    panel_width: u16,
) -> (r: usize)
    ensures
        r == scrolled_to(
            set@.choices,
            selected as int,
            scroll as int,
            height as int,
            panel_width,
        ),
{
    if selected >= set.choices.len() {
        return scroll;
    }
    let ghost choices = set@.choices;
    let mut top: usize = 0;
    let mut i: usize = 0;
    while i < selected
        invariant
            i <= selected < set.choices@.len(),
            choices == coordinator::choices_view(set.choices@),
            top == card_top(choices, panel_width, i as int),
        decreases selected - i,
    {
        assert(choices[i as int] == set.choices@[i as int]@);
        top = top.saturating_add(rec_card_height(&set.choices[i], panel_width));
        i += 1;
    }
    assert(choices[selected as int] == set.choices@[selected as int]@);
    let bottom: usize = top.saturating_add(rec_card_height(&set.choices[selected], panel_width));
    if top < scroll || bottom > scroll.saturating_add(height) {
        top
    } else {
        scroll
    }
}

/// The choice types something into a pane.
pub open spec fn sends_input(choice: ChoiceView) -> bool {
    exists|i: int| 0 <= i < choice.actions.len() && (#[trigger] choice.actions[i]) is Send
}

/// Whether the choice types something into a pane.
pub fn is_send_choice(choice: &RecommendationChoice) -> (yes: bool)
    ensures
        yes == sends_input(choice@),
{
    let mut i: usize = 0;
    while i < choice.actions.len()
        invariant
            i <= choice.actions@.len(),
            forall|j: int| 0 <= j < i ==> !((#[trigger] choice@.actions[j]) is Send),
        decreases choice.actions@.len() - i,
    {
        assert(choice@.actions[i as int] == choice.actions@[i as int]@);
        if let RecommendedAction::Send { parent: _, input: _ } = &choice.actions[i] {
            assert(choice@.actions[i as int] is Send);
            return true;
        }
        i += 1;
    }
    assert forall|j: int| 0 <= j < choice@.actions.len() implies !((
    #[trigger] choice@.actions[j]) is Send) by {}
    false
}

/// What the first action among `actions[from..]` that types into a pane types.
pub open spec fn first_input(actions: Seq<ActionView>, from: int) -> Option<Seq<char>>
    decreases actions.len() - from,
{
    if from < 0 || from >= actions.len() {
        None
    } else {
        match actions[from] {
            ActionView::Send { parent, input } => Some(input),
            _ => first_input(actions, from + 1),
        }
    }
}

/// What the choice types first into a pane.
pub fn first_send_input(choice: &RecommendationChoice) -> (input: Option<String>)
    ensures
        coordinator::seen(input) == first_input(choice@.actions, 0),
{
    let mut i: usize = 0;
    while i < choice.actions.len()
        invariant
            i <= choice.actions@.len(),
            first_input(choice@.actions, 0) == first_input(choice@.actions, i as int),
        decreases choice.actions@.len() - i,
    {
        assert(choice@.actions[i as int] == choice.actions@[i as int]@);
        if let RecommendedAction::Send { parent: _, input } = &choice.actions[i] {
            return Some(input.clone());
        }
        i += 1;
    }
    None
}

/// `s` with a space for each line break character.
pub open spec fn on_one_line(s: Seq<char>) -> Seq<char> {
    s.map_values(
        |c: char|
            if c == '\r' || c == '\n' {
                ' '
            } else {
                c
            },
    )
}

fn one_line(s: &str) -> (r: String)
    ensures
        r@ == on_one_line(s@),
{
    let chars = chars_of(s);
    let mut r = String::new();
    let mut i: usize = 0;
    while i < chars.len()
        invariant
            i <= chars@.len(),
            chars@ == s@,
            r@ == on_one_line(s@).take(i as int),
        decreases chars@.len() - i,
    {
        let c = chars[i];
        r.push(if c == '\r' || c == '\n' { ' ' } else { c });
        i += 1;
        assert(r@ =~= on_one_line(s@).take(i as int));
    }
    assert(r@ =~= on_one_line(s@));
    r
}

/// `s` can be cut after `max` bytes: it is no longer, or a character ends there.
pub open spec fn can_cut(s: Seq<char>, max: int) -> bool {
    text::byte_len(s) <= max || editing::on_boundary(s, max)
}

/// `s`, or its first `max` bytes followed by an ellipsis where it has more.
pub open spec fn cut_after(s: Seq<char>, max: int) -> Seq<char> {
    if text::byte_len(s) <= max {
        s
    } else {
        s.take(editing::chars_before(s, max)) + "…"@
    }
}

/// `s`, or its first `max` bytes followed by an ellipsis where it has more.
pub fn truncate(s: &str, max: usize) -> (r: String)
    requires
        can_cut(s@, max as int),
    ensures
        r@ == cut_after(s@, max as int),
{
    if byte_count(s) <= max {
        return s.to_owned();
    }
    let chars = chars_of(s);
    let n: usize = chars.len();
    let mut i: usize = 0;
    let mut offset: usize = 0;
    assert(chars@.take(0) =~= Seq::<char>::empty());
    proof {
        text::lemma_byte_len_take(s@, s@.len() as int, s@.len() as int);
        assert(s@.take(s@.len() as int) =~= s@);
    }
    while offset < max
        invariant
            i <= n == chars@.len(),
            chars@ == s@,
            offset == editing::byte_at(s@, i as int),
            offset <= max < text::byte_len(s@) <= usize::MAX,
            editing::on_boundary(s@, max as int),
        decreases chars@.len() - i,
    {
        proof {
            let k = choose|k: int| 0 <= k <= s@.len() && #[trigger] editing::byte_at(s@, k) == max;
            assert(s@.take(s@.len() as int) =~= s@);
            assert(k < s@.len());
            if k <= i {
                text::lemma_byte_len_take(s@, k, i as int);
            }
            text::lemma_byte_len_take(s@, i + 1, k);
            assert(s@.take(i + 1).drop_last() =~= s@.take(i as int));
        }
        offset = offset + len_utf8(chars[i]);
        i += 1;
    }
    proof {
        editing::lemma_boundary(s@, i as int);
    }
    let mut r = string_between(&chars, 0, i);
    assert(r@ =~= s@.take(i as int));
    r.append("…");
    r
}

/// What a preview of a choice is made of: what the choice types first into a
/// pane, on one line. Of a choice that types into no open pane it is what the
/// first action types into the pane that it opens, and of a choice without
/// actions it is the title.
pub open spec fn choice_preview(choice: ChoiceView) -> Seq<char> {
    match first_input(choice.actions, 0) {
        Some(input) => on_one_line(text::trimmed(input)),
        None => if choice.actions.len() == 0 {
            choice.title
        } else {
            match choice.actions[0] {
                ActionView::Send { parent, input } => on_one_line(text::trimmed(input)),
                ActionView::OpenAndSend { target, parent, input, agent, cwd, title } => on_one_line(
                    text::trimmed(input),
                ),
            }
        },
    }
}

/// The text that a preview is made of: that of the recommended choice, where
/// there is a choice at all.
pub open spec fn preview_source(set: SetView) -> Option<Seq<char>> {
    if set.choices.len() == 0 {
        None
    } else {
        Some(choice_preview(set.choices[coordinator::recommended_index(set)]))
    }
}

/// The preview of a fix can be cut after 80 bytes.
pub open spec fn can_preview(set: SetView) -> bool {
    match preview_source(set) {
        Some(source) => can_cut(source, 80),
        None => true,
    }
}

/// The preview of a fix.
pub open spec fn fix_preview(set: SetView) -> Seq<char> {
    match preview_source(set) {
        Some(source) => cut_after(source, 80),
        None => Seq::empty(),
    }
}

/// The text that a preview is made of.
pub fn preview_text(rec: &RecommendationSet) -> (source: Option<String>)
    ensures
        coordinator::seen(source) == preview_source(rec@),
{
    if rec.choices.len() == 0 {
        return None;
    }
    let i: usize = recommended_choice_index(rec);
    let choice = &rec.choices[i];
    assert(rec@.choices[i as int] == rec.choices@[i as int]@);
    if let Some(input) = first_send_input(choice) {
        return Some(one_line(trim(input.as_str())));
    }
    if choice.actions.len() == 0 {
        return Some(choice.title.clone());
    }
    assert(choice@.actions[0] == choice.actions@[0]@);
    let input = match &choice.actions[0] {
        RecommendedAction::Send { parent: _, input } => input,
        RecommendedAction::OpenAndSend { input, .. } => input,
    };
    Some(one_line(trim(input.as_str())))
}

/// A short preview of the recommended choice: what it types first into a pane.
pub fn armed_fix_preview(rec: &RecommendationSet) -> (preview: String)
    requires
        can_preview(rec@),
    ensures
        preview@ == fix_preview(rec@),
{
    match preview_text(rec) {
        Some(source) => truncate(source.as_str(), 80),
        None => String::new(),
    }
}

/// Whether the preview of a fix ends at the end of a character.
pub fn is_previewable(rec: &RecommendationSet) -> (yes: bool)
    ensures
        yes == can_preview(rec@),
{
    match preview_text(rec) {
        Some(source) => {
            let text = source.as_str();
            let cut: usize = editing::clamp_cursor_to_boundary(text, 80);
            proof {
                editing::lemma_clamped(text@, 80);
                if editing::on_boundary(text@, 80) {
                    let k = choose|k: int|
                        0 <= k <= text@.len() && #[trigger] editing::byte_at(text@, k) == 80;
                    editing::lemma_boundary(text@, k);
                }
            }
            byte_count(text) <= 80 || cut == 80
        },
        None => true,
    }
}

} // verus!
