//! The input of the `turso.exec` capability: which inputs hold statements to run.

use crate::error::{failure, ErrorView, ProviderError};
use crate::json::{as_array, as_object, as_str, get, items_of, json_of, Json};
use crate::text::{
    ascii_lowercase, ends_word, first_word, from_first_word, is_white_space, leading, leading_word,
    leading_word_is_the_first, only_capital_letters_change, precedes_word, same_chars,
};
use serde_json::Value;
use vstd::prelude::*;
use vstd::string::StringExecFns;

verus! {

/// The one leading word that is refused. `VACUUM INTO` opens its destination
/// on a platform of its own rather than through the host, and plain `VACUUM`
/// rewrites the whole file inside the byte budget of one invocation.
pub const REFUSED: &'static str = "vacuum";

/// Whether the provider refuses to run `sql`.
pub open spec fn is_refused(sql: Seq<char>) -> bool {
    leading_word(sql) == REFUSED@
}

/// The failure that answers a refused statement.
pub open spec fn refusal(sql: Seq<char>) -> ErrorView {
    ErrorView { code: "refused"@, message: leading_word(sql) + " is not permitted"@ }
}

/// The failure that answers an input of the wrong shape.
pub open spec fn invalid_input(message: Seq<char>) -> ErrorView {
    ErrorView { code: "invalid-input"@, message }
}

/// What is wrong with one item of the statements array.
pub open spec fn item_fault(item: Json) -> Option<ErrorView> {
    match item {
        Json::Str(sql) => if is_refused(sql) {
            Some(refusal(sql))
        } else {
            None
        },
        _ => Some(invalid_input("expected a statement string"@)),
    }
}

/// What is wrong with the first item at fault, in the order of the array.
pub open spec fn first_fault(items: Seq<Json>) -> Option<ErrorView>
    decreases items.len(),
{
    if items.len() == 0 {
        None
    } else if item_fault(items[0]) is Some {
        item_fault(items[0])
    } else {
        first_fault(items.drop_first())
    }
}

/// The texts of an array of strings.
pub open spec fn texts_of(items: Seq<Json>) -> Seq<Seq<char>> {
    items.map_values(|item: Json| item->Str_0)
}

/// The statements that `input` holds, or why it is not an input.
pub open spec fn statements_in(input: Json) -> Result<Seq<Seq<char>>, ErrorView> {
    match input {
        Json::Object(entries) => if entries.contains_key("statements"@)
            && entries["statements"@] is Array {
            let items = entries["statements"@]->Array_0;
            if items.len() == 0 {
                Err(invalid_input("expected at least one statement"@))
            } else {
                match first_fault(items) {
                    Some(fault) => Err(fault),
                    None => Ok(texts_of(items)),
                }
            }
        } else {
            Err(invalid_input("expected a statements array"@))
        },
        _ => Err(invalid_input("expected an object"@)),
    }
}

/// The texts that a list of strings holds.
pub open spec fn list_view(list: Seq<String>) -> Seq<Seq<char>> {
    list.map_values(|text: String| text@)
}

/// What a list of statements or a failure says.
pub open spec fn result_view(result: Result<Vec<String>, ProviderError>) -> Result<
    Seq<Seq<char>>,
    ErrorView,
> {
    match result {
        Ok(list) => Ok(list_view(list@)),
        Err(error) => Err(error@),
    }
}

/// An array without a fault holds only strings that are not refused, and one
/// with a fault has a first item at fault.
pub proof fn first_fault_is_first(items: Seq<Json>)
    ensures
        first_fault(items) is None <==> forall|i: int|
            #![trigger items[i]]
            0 <= i < items.len() ==> item_fault(items[i]) is None,
        first_fault(items) matches Some(fault) ==> exists|i: int|
            #![trigger items[i]]
            0 <= i < items.len() && item_fault(items[i]) == Some(fault) && forall|j: int|
                #![trigger items[j]]
                0 <= j < i ==> item_fault(items[j]) is None,
    decreases items.len(),
{
    if items.len() > 0 {
        let rest = items.drop_first();
        first_fault_is_first(rest);
        if item_fault(items[0]) is None {
            if let Some(fault) = first_fault(rest) {
                let i = choose|i: int|
                    #![trigger rest[i]]
                    0 <= i < rest.len() && item_fault(rest[i]) == Some(fault) && forall|j: int|
                        #![trigger rest[j]]
                        0 <= j < i ==> item_fault(rest[j]) is None;
                assert(item_fault(items[i + 1]) == Some(fault));
                assert forall|j: int| #![trigger items[j]] 0 <= j < i + 1 implies item_fault(
                    items[j],
                ) is None by {
                    if j > 0 {
                        assert(items[j] == rest[j - 1]);
                    }
                }
            } else {
                assert forall|i: int| #![trigger items[i]] 0 <= i < items.len() implies item_fault(
                    items[i],
                ) is None by {
                    if i > 0 {
                        assert(items[i] == rest[i - 1]);
                    }
                }
            }
        }
    }
}

/// White space and semicolons in front of a text do not change its first word.
proof fn lead_is_skipped(lead: Seq<char>, text: Seq<char>)
    requires
        forall|i: int| 0 <= i < lead.len() ==> precedes_word(#[trigger] lead[i]),
    ensures
        from_first_word(lead + text) == from_first_word(text),
    decreases lead.len(),
{
    if lead.len() > 0 {
        assert((lead + text)[0] == lead[0]);
        assert((lead + text).drop_first() == lead.drop_first() + text);
        lead_is_skipped(lead.drop_first(), text);
    } else {
        assert(lead + text == text);
    }
}

/// A word is the first word of a text in which it ends.
proof fn word_is_first(word: Seq<char>, rest: Seq<char>)
    requires
        forall|i: int| 0 <= i < word.len() ==> !ends_word(#[trigger] word[i]),
        rest.len() == 0 || ends_word(rest[0]),
    ensures
        first_word(word + rest) == word,
    decreases word.len(),
{
    if word.len() > 0 {
        assert((word + rest)[0] == word[0]);
        assert((word + rest).drop_first() == word.drop_first() + rest);
        word_is_first(word.drop_first(), rest);
        assert(seq![word[0]] + word.drop_first() == word);
    } else {
        assert(word + rest == rest);
    }
}

/// The refused word is refused in any casing and in any form: after any white
/// space and semicolons, and alone or before white space, a semicolon or a
/// parenthesis, whatever follows.
pub proof fn refused_in_any_casing_and_form(lead: Seq<char>, word: Seq<char>, rest: Seq<char>)
    requires
        forall|i: int| 0 <= i < lead.len() ==> precedes_word(#[trigger] lead[i]),
        word.map_values(|c: char| ascii_lowercase(c)) == REFUSED@,
        rest.len() == 0 || ends_word(rest[0]),
    ensures
        is_refused(lead + word + rest),
        item_fault(Json::Str(lead + word + rest)) == Some(
            ErrorView { code: "refused"@, message: REFUSED@ + " is not permitted"@ },
        ),
{
    reveal_strlit("vacuum");
    let lower = word.map_values(|c: char| ascii_lowercase(c));
    assert(lower == seq!['v', 'a', 'c', 'u', 'u', 'm']);
    assert(word.len() == lower.len());
    assert forall|i: int| 0 <= i < word.len() implies !ends_word(#[trigger] word[i]) by {
        assert(lower[i] == ascii_lowercase(word[i]));
        assert('a' <= lower[i] <= 'z');
    }
    assert(lead + word + rest == lead + (word + rest));
    lead_is_skipped(lead, word + rest);
    assert(!precedes_word((word + rest)[0])) by {
        assert((word + rest)[0] == word[0]);
    }
    word_is_first(word, rest);
}

/// Refuses `sql` where its leading word is refused.
pub fn permit(sql: &str) -> (verdict: Result<(), ProviderError>)
    ensures
        match verdict {
            Ok(_) => !is_refused(sql@),
            Err(error) => is_refused(sql@) && error@ == refusal(sql@),
        },
        match verdict {
            Ok(_) => !begins_with_vacuum(sql@),
            Err(error) => begins_with_vacuum(sql@) && error@ == (ErrorView {
                code: "refused"@,
                message: "vacuum is not permitted"@,
            }),
        },
{
    proof {
        only_vacuum_is_refused(sql@);
    }
    if same_chars(&leading(sql), REFUSED) {
        let mut message = REFUSED.to_owned();
        message.append(" is not permitted");
        return Err(failure("refused", message.as_str()));
    }
    Ok(())
}

/// The statements that `input` holds, in order, or why it is not an input.
pub fn statements_of(input: &Value) -> (statements: Result<Vec<String>, ProviderError>)
    ensures
        result_view(statements) == statements_in(json_of(*input)),
{
    let object = match as_object(input) {
        Some(object) => object,
        None => return Err(failure("invalid-input", "expected an object")),
    };
    let found = match get(object, "statements") {
        Some(found) => found,
        None => return Err(failure("invalid-input", "expected a statements array")),
    };
    let array = match as_array(found) {
        Some(array) => array,
        None => return Err(failure("invalid-input", "expected a statements array")),
    };
    if array.len() == 0 {
        return Err(failure("invalid-input", "expected at least one statement"));
    }
    let ghost items = items_of(array@);
    let mut statements: Vec<String> = Vec::new();
    assert(items.skip(0) == items);
    for at in 0..array.len()
        invariant
            items == items_of(array@),
            statements_in(json_of(*input)) == (match first_fault(items) {
                Some(fault) => Err::<Seq<Seq<char>>, ErrorView>(fault),
                None => Ok(texts_of(items)),
            }),
            first_fault(items) == first_fault(items.skip(at as int)),
            list_view(statements@) == texts_of(items.take(at as int)),
    {
        assert(items.skip(at as int)[0] == json_of(array@[at as int]));
        assert(items.skip(at as int).drop_first() == items.skip(at + 1));
        let sql = match as_str(&array[at]) {
            Some(sql) => sql,
            None => return Err(failure("invalid-input", "expected a statement string")),
        };
        match permit(sql) {
            Ok(_) => {},
            Err(error) => return Err(error),
        }
        let ghost before = statements@;
        statements.push(sql.to_owned());
        assert(list_view(statements@) == list_view(before).push(sql@));
        assert(texts_of(items.take(at + 1)) == texts_of(items.take(at as int)).push(sql@));
    }
    assert(items.take(items.len() as int) == items);
    Ok(statements)
}

/// Whether `word` spells `vacuum`, each letter in either case.
pub open spec fn spells_vacuum(word: Seq<char>) -> bool {
    &&& word.len() == 6
    &&& word[0] == 'v' || word[0] == 'V'
    &&& word[1] == 'a' || word[1] == 'A'
    &&& word[2] == 'c' || word[2] == 'C'
    &&& word[3] == 'u' || word[3] == 'U'
    &&& word[4] == 'u' || word[4] == 'U'
    &&& word[5] == 'm' || word[5] == 'M'
}

/// Whether `sql` is `lead`, white space and semicolons, then `word`, which
/// spells `vacuum`, then `rest`, in which the word ends.
pub open spec fn vacuums(sql: Seq<char>, lead: Seq<char>, word: Seq<char>, rest: Seq<char>) -> bool {
    &&& sql == lead + word + rest
    &&& forall|i: int| 0 <= i < lead.len() ==> is_white_space(#[trigger] lead[i]) || lead[i] == ';'
    &&& spells_vacuum(word)
    &&& rest.len() > 0 ==> is_white_space(rest[0]) || rest[0] == ';' || rest[0] == '('
}

/// Whether `sql` begins with the word `vacuum`.
pub open spec fn begins_with_vacuum(sql: Seq<char>) -> bool {
    exists|lead: Seq<char>, word: Seq<char>, rest: Seq<char>| vacuums(sql, lead, word, rest)
}

/// A statement is refused where it begins with the word `vacuum`, in any
/// casing and form, and only there. Every other statement is accepted.
pub proof fn only_vacuum_is_refused(sql: Seq<char>)
    ensures
        is_refused(sql) <==> begins_with_vacuum(sql),
        item_fault(Json::Str(sql)) == if begins_with_vacuum(sql) {
            Some(ErrorView { code: "refused"@, message: "vacuum is not permitted"@ })
        } else {
            None
        },
{
    reveal_strlit("vacuum");
    reveal_strlit(" is not permitted");
    reveal_strlit("vacuum is not permitted");
    assert(REFUSED@ =~= seq!['v', 'a', 'c', 'u', 'u', 'm']);
    assert(REFUSED@ + " is not permitted"@ =~= "vacuum is not permitted"@);
    if is_refused(sql) {
        let (lead, word, rest) = leading_word_is_the_first(sql);
        assert forall|i: int| 0 <= i < 6 implies ascii_lowercase(#[trigger] word[i])
            == REFUSED@[i] by {
            assert(leading_word(sql)[i] == ascii_lowercase(word[i]));
        }
        assert(spells_vacuum(word)) by {
            only_capital_letters_change(word[0]);
            only_capital_letters_change(word[1]);
            only_capital_letters_change(word[2]);
            only_capital_letters_change(word[3]);
            only_capital_letters_change(word[4]);
            only_capital_letters_change(word[5]);
        }
        assert(vacuums(sql, lead, word, rest));
    }
    if begins_with_vacuum(sql) {
        let (lead, word, rest) = choose|lead: Seq<char>, word: Seq<char>, rest: Seq<char>|
            vacuums(sql, lead, word, rest);
        assert(word.map_values(|c: char| ascii_lowercase(c)) =~= REFUSED@);
        assert forall|i: int| 0 <= i < lead.len() implies precedes_word(#[trigger] lead[i]) by {
            assert(is_white_space(lead[i]) || lead[i] == ';');
        }
        refused_in_any_casing_and_form(lead, word, rest);
    }
}

/// The statements of an input that is none: which failure answers it.
pub proof fn input_of_another_shape_is_invalid(input: Json)
    ensures
        !(input is Object) ==> statements_in(input) == Err::<Seq<Seq<char>>, ErrorView>(
            ErrorView { code: "invalid-input"@, message: "expected an object"@ },
        ),
        input matches Json::Object(entries) ==> {
            &&& !entries.contains_key("statements"@) || !(entries["statements"@] is Array)
                ==> statements_in(input) == Err::<Seq<Seq<char>>, ErrorView>(
                ErrorView { code: "invalid-input"@, message: "expected a statements array"@ },
            )
            &&& entries.contains_key("statements"@) && entries["statements"@] == Json::Array(
                Seq::empty(),
            ) ==> statements_in(input) == Err::<Seq<Seq<char>>, ErrorView>(
                ErrorView { code: "invalid-input"@, message: "expected at least one statement"@ },
            )
        },
{
}

/// The statements of an input are the strings of its array, each of them and
/// in their order, where all of its items are strings and none begins with
/// `vacuum`. Otherwise the first item that is no such string decides the failure.
pub proof fn statements_are_the_items(entries: Map<Seq<char>, Json>, items: Seq<Json>)
    requires
        entries.contains_key("statements"@),
        entries["statements"@] == Json::Array(items),
        items.len() > 0,
    ensures
        match statements_in(Json::Object(entries)) {
            Ok(statements) => {
                &&& statements.len() == items.len()
                &&& forall|i: int|
                    #![trigger items[i]]
                    0 <= i < items.len() ==> items[i] == Json::Str(statements[i])
                        && !begins_with_vacuum(statements[i])
            },
            Err(error) => exists|k: int|
                #![trigger items[k]]
                {
                    &&& 0 <= k < items.len()
                    &&& forall|j: int|
                        #![trigger items[j]]
                        0 <= j < k ==> items[j] is Str && !begins_with_vacuum(items[j]->Str_0)
                    &&& !(items[k] is Str) && error == (ErrorView {
                        code: "invalid-input"@,
                        message: "expected a statement string"@,
                    }) || items[k] is Str && begins_with_vacuum(items[k]->Str_0) && error == (
                    ErrorView { code: "refused"@, message: "vacuum is not permitted"@ })
                },
        },
{
    first_fault_is_first(items);
    match first_fault(items) {
        None => {
            let statements = texts_of(items);
            assert forall|i: int| #![trigger items[i]] 0 <= i < items.len() implies items[i]
                == Json::Str(statements[i]) && !begins_with_vacuum(statements[i]) by {
                assert(item_fault(items[i]) is None);
                only_vacuum_is_refused(items[i]->Str_0);
            }
        },
        Some(fault) => {
            let k = choose|k: int|
                #![trigger items[k]]
                0 <= k < items.len() && item_fault(items[k]) == Some(fault) && forall|j: int|
                    #![trigger items[j]]
                    0 <= j < k ==> item_fault(items[j]) is None;
            assert forall|j: int| #![trigger items[j]] 0 <= j < k implies items[j] is Str
                && !begins_with_vacuum(items[j]->Str_0) by {
                assert(item_fault(items[j]) is None);
                only_vacuum_is_refused(items[j]->Str_0);
            }
            if items[k] is Str {
                only_vacuum_is_refused(items[k]->Str_0);
            }
        },
    }
}

/// What a list of strings or a failure says keeps every string, in order, and
/// the failure as it is.
pub proof fn list_is_kept(list: Vec<String>, error: ProviderError)
    ensures
        list_view(list@).len() == list@.len(),
        forall|i: int| 0 <= i < list@.len() ==> #[trigger] list_view(list@)[i] == list@[i]@,
        result_view(Ok(list)) == Ok::<Seq<Seq<char>>, ErrorView>(list_view(list@)),
        result_view(Err(error)) == Err::<Seq<Seq<char>>, ErrorView>(error@),
{
}

} // verus!
