//! The class attribute of a rendered element, kept in Yew's `Classes`.

use vstd::prelude::*;
use yew::Classes;

verus! {

/// `yew::Classes`, an ordered set of class names. Its contents are spoken of through
/// [`class_list`].
#[verifier::external_type_specification]
#[verifier::external_body]
pub struct ExClasses(yew::Classes);

/// The class names that a set holds, in the order in which they were first added.
pub uninterp spec fn class_list(classes: Classes) -> Seq<Seq<char>>;

/// The class names that `Classes::from` finds in a `String`: the parts between its white
/// space, each once, in the order of their first occurrence.
pub uninterp spec fn class_names(text: Seq<char>) -> Seq<Seq<char>>;

/// A character that class names are commonly made of: an ASCII letter or digit, a hyphen
/// or an underscore. None of them is white space.
pub open spec fn is_name_char(c: char) -> bool {
    ||| 'a' <= c && c <= 'z'
    ||| 'A' <= c && c <= 'Z'
    ||| '0' <= c && c <= '9'
    ||| c == '-'
    ||| c == '_'
}

/// A text that is one class name made of such characters.
pub open spec fn is_single_name(text: Seq<char>) -> bool {
    &&& text.len() > 0
    &&& forall|i: int| 0 <= i < text.len() ==> is_name_char(#[trigger] text[i])
}

/// The class names that a text adds when it is pushed: none for the empty text, the text
/// itself where it is a single name, and what `Classes` finds in it otherwise.
pub open spec fn names_in(text: Seq<char>) -> Seq<Seq<char>> {
    if text.len() == 0 {
        Seq::empty()
    } else if is_single_name(text) {
        seq![text]
    } else {
        class_names(text)
    }
}

/// `items`, followed by the names of `more` that were not there yet, each once and in
/// order.
pub open spec fn with_new(items: Seq<Seq<char>>, more: Seq<Seq<char>>) -> Seq<Seq<char>>
    decreases more.len(),
{
    if more.len() == 0 {
        items
    } else if items.contains(more[0]) {
        with_new(items, more.drop_first())
    } else {
        with_new(items.push(more[0]), more.drop_first())
    }
}

/// `items` with `name` at its end, unless `items` holds it already.
pub open spec fn with_name(items: Seq<Seq<char>>, name: Seq<char>) -> Seq<Seq<char>> {
    if items.contains(name) {
        items
    } else {
        items.push(name)
    }
}

/// `Classes::new`: a set without any class.
pub assume_specification[ Classes::new ]() -> (classes: Classes)
    ensures
        class_list(classes) == Seq::<Seq<char>>::empty(),
;

/// `Classes::push` with a `String`. The text is split at white space; an empty text adds
/// nothing and a text without white space is one name. Each name that the set does not hold
/// yet goes to its end; a name that it holds stays where it is.
#[verifier::external_body]
pub(crate) fn push_class(classes: &mut Classes, class: String)
    ensures
        class_list(*final(classes)) == with_new(
            class_list(*old(classes)),
            if class@.len() == 0 {
                Seq::empty()
            } else if is_single_name(class@) {
                seq![class@]
            } else {
                class_names(class@)
            },
        ),
{
    classes.push(class)
}

/// Adds one class name to the set, unless the set holds it.
pub(crate) fn add_name(classes: &mut Classes, name: &str)
    requires
        is_single_name(name@),
    ensures
        class_list(*final(classes)) == with_name(class_list(*old(classes)), name@),
{
    proof {
        lemma_with_new_single(class_list(*classes), name@);
    }
    push_class(classes, name.to_owned());
}

/// Adding a single name that the set does not hold puts it at the end.
pub proof fn lemma_with_new_single(items: Seq<Seq<char>>, name: Seq<char>)
    requires
        is_single_name(name),
    ensures
        with_new(items, names_in(name)) == with_name(items, name),
{
    let more = names_in(name);
    assert(more == seq![name]);
    assert(more.drop_first().len() == 0);
    reveal_with_fuel(with_new, 2);
}

/// Pushing keeps what the set holds, in its order: the old names are the first names of the
/// new set.
pub proof fn lemma_with_new_keeps_items(items: Seq<Seq<char>>, more: Seq<Seq<char>>)
    ensures
        items.len() <= with_new(items, more).len(),
        with_new(items, more).subrange(0, items.len() as int) == items,
    decreases more.len(),
{
    if more.len() > 0 {
        let grown = with_name(items, more[0]);
        lemma_with_new_keeps_items(grown, more.drop_first());
        let all = with_new(grown, more.drop_first());
        assert(all == with_new(items, more));
        assert(all.subrange(0, items.len() as int) =~= all.subrange(0, grown.len() as int).subrange(
            0,
            items.len() as int,
        ));
        assert(grown.subrange(0, items.len() as int) =~= items);
    } else {
        assert(items.subrange(0, items.len() as int) =~= items);
    }
}

/// Pushing never makes a name occur twice.
pub proof fn lemma_with_new_no_duplicates(items: Seq<Seq<char>>, more: Seq<Seq<char>>)
    requires
        items.no_duplicates(),
    ensures
        with_new(items, more).no_duplicates(),
    decreases more.len(),
{
    if more.len() > 0 {
        let grown = with_name(items, more[0]);
        assert(grown.no_duplicates()) by {
            if !items.contains(more[0]) {
                assert forall|i: int, j: int|
                    0 <= i < grown.len() && 0 <= j < grown.len() && i != j implies grown[i]
                    != grown[j] by {
                    if i < items.len() && j < items.len() {
                    } else if i < items.len() {
                        assert(items.contains(items[i]));
                    } else {
                        assert(items.contains(items[j]));
                    }
                }
            }
        }
        lemma_with_new_no_duplicates(grown, more.drop_first());
    }
}

/// After a push the set holds exactly the names that it held and the names that were
/// pushed.
pub proof fn lemma_with_new_holds(items: Seq<Seq<char>>, more: Seq<Seq<char>>, name: Seq<char>)
    ensures
        with_new(items, more).contains(name) <==> items.contains(name) || more.contains(name),
    decreases more.len(),
{
    if more.len() > 0 {
        let grown = with_name(items, more[0]);
        let rest = more.drop_first();
        lemma_with_new_holds(grown, rest, name);
        assert(grown.contains(name) <==> items.contains(name) || name == more[0]) by {
            if !items.contains(more[0]) {
                if grown.contains(name) {
                    let i = choose|i: int| 0 <= i < grown.len() && grown[i] == name;
                    if i < items.len() {
                        assert(items[i] == name);
                    }
                }
                if items.contains(name) {
                    let i = choose|i: int| 0 <= i < items.len() && items[i] == name;
                    assert(grown[i] == name);
                }
                assert(grown[items.len() as int] == more[0]);
            }
        }
        assert(more.contains(name) <==> name == more[0] || rest.contains(name)) by {
            if more.contains(name) {
                let i = choose|i: int| 0 <= i < more.len() && more[i] == name;
                if i > 0 {
                    assert(rest[i - 1] == name);
                }
            }
            if rest.contains(name) {
                let i = choose|i: int| 0 <= i < rest.len() && rest[i] == name;
                assert(more[i + 1] == name);
            }
            assert(more[0] == more[0]);
        }
    }
}

} // verus!
