//! The list item of one todo: its style declaration and its markup.

use crate::text::{decimal, escape, push_decimal, push_escaped};
use vstd::prelude::*;

verus! {

/// What one slot of a style contributes: its declaration where the rule
/// holds, nothing where it does not.
pub open spec fn slot_text(slot: (bool, Seq<char>)) -> Seq<char> {
    if slot.0 {
        slot.1
    } else {
        Seq::empty()
    }
}

/// The slots' contributions joined by `;`, empty ones included: `n` slots
/// always give `n - 1` separators, whatever their rules say.
pub open spec fn join_slots(slots: Seq<(bool, Seq<char>)>) -> Seq<char>
    decreases slots.len(),
{
    if slots.len() == 0 {
        Seq::empty()
    } else if slots.len() == 1 {
        slot_text(slots[0])
    } else {
        join_slots(slots.drop_last()).push(';') + slot_text(slots.last())
    }
}

/// An ordered list of (rule, declaration) pairs from which a style attribute
/// is built.
pub struct Style<'a> {
    rules: Vec<bool>,
    styles: Vec<&'a str>,
}

impl<'a> Style<'a> {
    #[verifier::type_invariant]
    spec fn paired(self) -> bool {
        self.rules.len() == self.styles.len()
    }

    /// The pairs added so far, oldest first.
    pub closed spec fn slots(self) -> Seq<(bool, Seq<char>)> {
        Seq::new(self.rules@.len(), |i: int| (self.rules@[i], self.styles@[i]@))
    }

    /// A style without any slot.
    pub fn new() -> (style: Self)
        ensures
            style.slots() == Seq::<(bool, Seq<char>)>::empty(),
    {
        let style = Self { rules: Vec::new(), styles: Vec::new() };
        assert(style.slots() =~= Seq::<(bool, Seq<char>)>::empty());
        style
    }

    /// Adds a slot after those already there.
    pub fn with_rule(self, rule: bool, style: &'a str) -> (next: Self)
        ensures
            next.slots() == self.slots().push((rule, style@)),
    {
        proof {
            use_type_invariant(&self);
        }
        let ghost before = self.slots();
        let Style { mut rules, mut styles } = self;
        rules.push(rule);
        styles.push(style);
        let next = Style { rules, styles };
        assert(next.slots() =~= before.push((rule, style@)));
        next
    }

    /// The style attribute's value: every slot in order, separated by `;`.
    pub fn build(self) -> (text: String)
        ensures
            text@ == join_slots(self.slots()),
    {
        proof {
            use_type_invariant(&self);
        }
        let mut text = String::new();
        let mut i: usize = 0;
        while i < self.rules.len()
            invariant
                i <= self.rules.len(),
                self.rules.len() == self.styles.len(),
                text@ == join_slots(self.slots().take(i as int)),
            decreases self.rules.len() - i,
        {
            let ghost upto = self.slots().take(i + 1);
            assert(upto.drop_last() =~= self.slots().take(i as int));
            assert(upto.last() == (self.rules@[i as int], self.styles@[i as int]@));
            if i > 0 {
                text.push(';');
            }
            if self.rules[i] {
                text.append(self.styles[i]);
            }
            assert(text@ =~= join_slots(upto));
            i += 1;
        }
        assert(self.slots().take(i as int) =~= self.slots());
        text
    }
}

/// The style of an item: struck through where it is completed, then shaded
/// where its id is even. Both slots are always present, so the value always
/// holds exactly one `;`.
pub open spec fn item_style_text(id: nat, completed: bool) -> Seq<char> {
    join_slots(
        seq![
            (completed, "text-decoration: line-through"@),
            (id % 2 == 0, "background-color: darkgrey"@),
        ],
    )
}

/// The markup of one item: a `li` element whose `id` attribute names the
/// item, whose `hx-put` attribute addresses the item's toggle request, whose
/// `style` attribute is its style, and whose content is its escaped text.
pub open spec fn item_markup(id: nat, text: Seq<char>, completed: bool) -> Seq<char> {
    "<li id=\"todo-item-"@ + decimal(id) + "\" hx-put=\"/todos/"@ + decimal(id)
        + "\" style=\""@ + item_style_text(id, completed) + "\" hx-swap=\"outerHTML\">"@
        + escape(text) + "</li>"@
}

/// The style of an item always has the same shape: the first declaration or
/// nothing, one `;`, the second declaration or nothing.
pub proof fn lemma_item_style_shape(id: nat, completed: bool)
    ensures
        item_style_text(id, completed) == (if completed {
            "text-decoration: line-through"@
        } else {
            Seq::<char>::empty()
        }).push(';') + (if id % 2 == 0 {
            "background-color: darkgrey"@
        } else {
            Seq::<char>::empty()
        }),
{
    let slots = seq![
        (completed, "text-decoration: line-through"@),
        (id % 2 == 0, "background-color: darkgrey"@),
    ];
    assert(slots.drop_last() =~= seq![(completed, "text-decoration: line-through"@)]);
    reveal_with_fuel(join_slots, 3);
}

/// Computes the style attribute's value of an item.
pub fn item_style(id: usize, completed: bool) -> (style: String)
    ensures
        style@ == item_style_text(id as nat, completed),
{
    let style = Style::new().with_rule(completed, "text-decoration: line-through").with_rule(
        id % 2 == 0,
        "background-color: darkgrey",
    );
    assert(style.slots() =~= seq![
        (completed, "text-decoration: line-through"@),
        (id % 2 == 0, "background-color: darkgrey"@),
    ]);
    style.build()
}

/// Renders one item as the fragment that replaces it on the page.
#[allow(non_snake_case)]
pub fn TodoItem(id: usize, text: String, completed: bool) -> (html: String)
    ensures
        html@ == item_markup(id as nat, text@, completed),
{
    let style = item_style(id, completed);
    let mut html = String::new();
    html.append("<li id=\"todo-item-");
    push_decimal(&mut html, id);
    html.append("\" hx-put=\"/todos/");
    push_decimal(&mut html, id);
    html.append("\" style=\"");
    html.append(style.as_str());
    html.append("\" hx-swap=\"outerHTML\">");
    push_escaped(&mut html, text.as_str());
    html.append("</li>");
    assert(html@ =~= item_markup(id as nat, text@, completed));
    html
}

} // verus!
