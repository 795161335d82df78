//! The named fields of an event, and the three values that are read from
//! them: service, function and message.
//!
//! Service and function keep the value that was recorded last. The message
//! keeps the first value that was not empty. Every other name is ignored.

use vstd::prelude::*;
use crate::text::{same_text, strip_quotes, unquoted};

verus! {

/// The value of a field as the event carried it.
#[derive(Debug)]
pub enum FieldValue {
    /// A string, used as it is.
    Str(String),
    /// The debug rendering of any other value. A rendering in double quotes
    /// stands for the text between them.
    Debug(String),
}

impl FieldValue {
    /// The text that this value contributes.
    pub open spec fn text(self) -> Seq<char> {
        match self {
            FieldValue::Str(s) => s@,
            FieldValue::Debug(s) => unquoted(s@),
        }
    }
}

/// One recorded field: a name and a value. An event may carry the same name
/// more than once.
#[derive(Debug)]
pub struct Field {
    pub name: String,
    pub value: FieldValue,
}

/// A field as a pair of texts.
pub struct FieldView {
    pub name: Seq<char>,
    pub text: Seq<char>,
}

impl View for Field {
    type V = FieldView;

    open spec fn view(&self) -> FieldView {
        FieldView { name: self.name@, text: self.value.text() }
    }
}

/// The fields of an event, each as a pair of texts, in recording order.
pub open spec fn field_views(fields: Seq<Field>) -> Seq<FieldView> {
    fields.map_values(|f: Field| f@)
}

/// The three recognised values of an event; a value that was never given is empty.
pub struct ExtractedFields {
    pub service: Seq<char>,
    pub function: Seq<char>,
    pub message: Seq<char>,
}

/// The text of the last field called `name`, or the empty text if there is none.
pub open spec fn last_value(fields: Seq<FieldView>, name: Seq<char>) -> Seq<char>
    decreases fields.len(),
{
    if fields.len() == 0 {
        Seq::empty()
    } else if fields.last().name == name {
        fields.last().text
    } else {
        last_value(fields.drop_last(), name)
    }
}

/// The text of the first field called `name` whose text is not empty, or the
/// empty text if there is none.
pub open spec fn first_nonempty_value(fields: Seq<FieldView>, name: Seq<char>) -> Seq<char>
    decreases fields.len(),
{
    if fields.len() == 0 {
        Seq::empty()
    } else if fields.first().name == name && fields.first().text.len() > 0 {
        fields.first().text
    } else {
        first_nonempty_value(fields.drop_first(), name)
    }
}

/// What is read from the fields of one event.
pub open spec fn extracted(fields: Seq<FieldView>) -> ExtractedFields {
    ExtractedFields {
        service: last_value(fields, "service"@),
        function: last_value(fields, "function"@),
        message: first_nonempty_value(fields, "message"@),
    }
}

/// The values after one more field has been recorded.
pub open spec fn recorded(before: ExtractedFields, field: FieldView) -> ExtractedFields {
    if field.name == "service"@ {
        ExtractedFields { service: field.text, ..before }
    } else if field.name == "function"@ {
        ExtractedFields { function: field.text, ..before }
    } else if field.name == "message"@ && before.message.len() == 0 {
        ExtractedFields { message: field.text, ..before }
    } else {
        before
    }
}

/// Gathers the recognised values while the fields of one event are visited in order.
#[derive(Debug)]
pub struct HumanStyleVisitor {
    pub service: String,
    pub function: String,
    pub message: String,
}

impl View for HumanStyleVisitor {
    type V = ExtractedFields;

    open spec fn view(&self) -> ExtractedFields {
        ExtractedFields { service: self.service@, function: self.function@, message: self.message@ }
    }
}

impl HumanStyleVisitor {
    /// A visitor that has seen no field yet.
    pub fn new() -> (visitor: Self)
        ensures
            visitor@.service == Seq::<char>::empty(),
            visitor@.function == Seq::<char>::empty(),
            visitor@.message == Seq::<char>::empty(),
    {
        HumanStyleVisitor { service: String::new(), function: String::new(), message: String::new() }
    }

    /// Records a field whose value is a string.
    pub fn record_str(&mut self, name: &str, value: &str)
        ensures
            final(self)@ == recorded(old(self)@, (FieldView { name: name@, text: value@ })),
    {
        if same_text(name, "service") {
            self.service = value.to_owned();
        } else if same_text(name, "function") {
            self.function = value.to_owned();
        } else if same_text(name, "message") {
            if self.message.as_str().is_empty() {
                self.message = value.to_owned();
            }
        }
    }

    /// Records a field whose value is known by its debug rendering.
    pub fn record_debug(&mut self, name: &str, rendering: &str)
        ensures
            final(self)@ == recorded(
                old(self)@,
                (FieldView { name: name@, text: unquoted(rendering@) }),
            ),
    {
        if same_text(name, "service") {
            self.service = strip_quotes(rendering);
        } else if same_text(name, "function") {
            self.function = strip_quotes(rendering);
        } else if same_text(name, "message") {
            if self.message.as_str().is_empty() {
                self.message = strip_quotes(rendering);
            }
        }
    }

    /// Records one field of either kind.
    pub fn record(&mut self, field: &Field)
        ensures
            final(self)@ == recorded(old(self)@, field@),
    {
        match &field.value {
            FieldValue::Str(s) => self.record_str(field.name.as_str(), s.as_str()),
            FieldValue::Debug(s) => self.record_debug(field.name.as_str(), s.as_str()),
        }
    }
}

/// The three recognised names are different from one another.
proof fn lemma_names_differ()
    ensures
        "service"@ != "function"@,
        "service"@ != "message"@,
        "function"@ != "message"@,
{
    reveal_strlit("service");
    reveal_strlit("function");
    reveal_strlit("message");
    assert("service"@.len() == 7);
    assert("function"@.len() == 8);
    assert("message"@.len() == 7);
    assert("service"@[0] == 's');
    assert("message"@[0] == 'm');
}

/// The first non-empty value after one more field: the one found so far if
/// there is one, else the text of the new field if it carries the name.
proof fn lemma_first_nonempty_push(fields: Seq<FieldView>, field: FieldView, name: Seq<char>)
    ensures
        first_nonempty_value(fields, name).len() > 0 ==> first_nonempty_value(
            fields.push(field),
            name,
        ) == first_nonempty_value(fields, name),
        first_nonempty_value(fields, name).len() == 0 && field.name == name
            ==> first_nonempty_value(fields.push(field), name) == field.text,
        first_nonempty_value(fields, name).len() == 0 && field.name != name
            ==> first_nonempty_value(fields.push(field), name) == Seq::<char>::empty(),
    decreases fields.len(),
{
    let longer = fields.push(field);
    if fields.len() == 0 {
        assert(longer.drop_first() =~= Seq::<FieldView>::empty());
        assert(longer.first() == field);
        assert(first_nonempty_value(longer.drop_first(), name) == Seq::<char>::empty());
        if field.text.len() == 0 {
            assert(field.text =~= Seq::<char>::empty());
        }
    } else {
        assert(longer.first() == fields.first());
        assert(longer.drop_first() =~= fields.drop_first().push(field));
        lemma_first_nonempty_push(fields.drop_first(), field, name);
    }
}

/// Reading the fields of an event is the same as recording them one by one.
pub proof fn lemma_extracted_push(fields: Seq<FieldView>, field: FieldView)
    ensures
        extracted(fields.push(field)) == recorded(extracted(fields), field),
{
    lemma_names_differ();
    let longer = fields.push(field);
    assert(longer.last() == field);
    assert(longer.drop_last() =~= fields);
    lemma_first_nonempty_push(fields, field, "message"@);
    let before = extracted(fields);
    let after = extracted(longer);
    assert(after.service == recorded(before, field).service);
    assert(after.function == recorded(before, field).function);
    assert(after.message =~= recorded(before, field).message);
}

/// No field of the event is called `name`.
pub open spec fn is_absent(fields: Seq<FieldView>, name: Seq<char>) -> bool {
    forall|i: int| 0 <= i < fields.len() ==> (#[trigger] fields[i]).name != name
}

/// A name that no field carries has no value, under either rule.
pub proof fn law_absent_value_is_empty(fields: Seq<FieldView>, name: Seq<char>)
    requires
        is_absent(fields, name),
    ensures
        last_value(fields, name) == Seq::<char>::empty(),
        first_nonempty_value(fields, name) == Seq::<char>::empty(),
    decreases fields.len(),
{
    if fields.len() > 0 {
        assert(fields.last() == fields[fields.len() - 1]);
        assert(fields.first() == fields[0]);
        assert forall|i: int| 0 <= i < fields.drop_last().len() implies (#[trigger] fields.drop_last()[i]).name
            != name by {
            assert(fields.drop_last()[i] == fields[i]);
        }
        assert forall|i: int| 0 <= i < fields.drop_first().len() implies (#[trigger] fields.drop_first()[i]).name
            != name by {
            assert(fields.drop_first()[i] == fields[i + 1]);
        }
        law_absent_value_is_empty(fields.drop_last(), name);
        law_absent_value_is_empty(fields.drop_first(), name);
    }
}

/// Last write wins: where the field at `at` is the last one called `name`,
/// the value kept under the rule of the last value is the text of that
/// field, whatever stood in the fields before it.
pub proof fn law_last_value_wins(fields: Seq<FieldView>, name: Seq<char>, at: int)
    requires
        0 <= at < fields.len(),
        fields[at].name == name,
        forall|j: int| at < j < fields.len() ==> (#[trigger] fields[j]).name != name,
    ensures
        last_value(fields, name) == fields[at].text,
    decreases fields.len(),
{
    assert(fields.last() == fields[fields.len() - 1]);
    if at < fields.len() - 1 {
        let front = fields.drop_last();
        assert(front[at] == fields[at]);
        assert forall|j: int| at < j < front.len() implies (#[trigger] front[j]).name != name by {
            assert(front[j] == fields[j]);
        }
        law_last_value_wins(front, name, at);
    }
}

/// First write wins: where the field at `at` is called `name` and has a text
/// that is not empty, and every field called `name` before it has an empty
/// text, the value kept under the rule of the first value is the text of the
/// field at `at`, whatever stands in the fields after it.
pub proof fn law_first_nonempty_value_wins(fields: Seq<FieldView>, name: Seq<char>, at: int)
    requires
        0 <= at < fields.len(),
        fields[at].name == name,
        fields[at].text.len() > 0,
        forall|j: int| 0 <= j < at && (#[trigger] fields[j]).name == name ==> fields[j].text.len() == 0,
    ensures
        first_nonempty_value(fields, name) == fields[at].text,
    decreases fields.len(),
{
    assert(fields.first() == fields[0]);
    if at > 0 {
        let back = fields.drop_first();
        assert(back[at - 1] == fields[at]);
        assert forall|j: int| 0 <= j < at - 1 && (#[trigger] back[j]).name == name implies back[j].text.len()
            == 0 by {
            assert(back[j] == fields[j + 1]);
        }
        law_first_nonempty_value_wins(back, name, at - 1);
    }
}

/// Reads service, function and message from the fields of one event.
pub fn extract_fields(fields: &Vec<Field>) -> (visitor: HumanStyleVisitor)
    ensures
        visitor@ == extracted(field_views(fields@)),
{
    let mut visitor = HumanStyleVisitor::new();
    let mut i: usize = 0;
    while i < fields.len()
        invariant
            i <= fields.len(),
            visitor@ == extracted(field_views(fields@).take(i as int)),
        decreases fields.len() - i,
    {
        visitor.record(&fields[i]);
        proof {
            let views = field_views(fields@);
            assert(views.take(i + 1) =~= views.take(i as int).push(views[i as int]));
            lemma_extracted_push(views.take(i as int), views[i as int]);
        }
        i += 1;
    }
    assert(field_views(fields@).take(i as int) =~= field_views(fields@));
    visitor
}

} // verus!
