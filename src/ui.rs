use vstd::prelude::*;

verus! {

/// The kinds of input that a form field can render.
#[derive(PartialEq, Eq, Structural, Clone, Copy, Debug)]
pub enum InputType {
    Text,
    Password,
    Number,
    Search,
    Date,
    Time,
    Checkbox,
    Radio,
    Select,
    Textarea,
}

impl Default for InputType {
    fn default() -> (r: InputType)
        ensures
            r == InputType::Text,
    {
        InputType::Text
    }
}

impl InputType {
    pub open spec fn spec_str(self) -> Seq<char> {
        match self {
            InputType::Text => "text"@,
            InputType::Password => "password"@,
            InputType::Number => "number"@,
            InputType::Search => "search"@,
            InputType::Date => "date"@,
            InputType::Time => "time"@,
            InputType::Checkbox => "checkbox"@,
            InputType::Radio => "radio"@,
            InputType::Select => "select"@,
            InputType::Textarea => "textarea"@,
        }
    }

    /// The HTML name of the input type.
    pub fn as_str(&self) -> (r: &'static str)
        ensures
            r@ == self.spec_str(),
    {
        match self {
            InputType::Text => "text",
            InputType::Password => "password",
            InputType::Number => "number",
            InputType::Search => "search",
            InputType::Date => "date",
            InputType::Time => "time",
            InputType::Checkbox => "checkbox",
            InputType::Radio => "radio",
            InputType::Select => "select",
            InputType::Textarea => "textarea",
        }
    }
}

/// One choice of a select or radio field.
#[derive(Debug)]
pub struct SelectOption {
    pub value: String,
    pub label: String,
    pub disabled: bool,
    pub selected: bool,
}

impl SelectOption {
    /// An option that is neither disabled nor selected.
    pub fn new(value: String, label: String) -> (r: SelectOption)
        ensures
            r.value@ == value@,
            r.label@ == label@,
            !r.disabled,
            !r.selected,
    {
        SelectOption { value, label, disabled: false, selected: false }
    }

    pub fn selected(self) -> (r: SelectOption)
        ensures
            r.selected,
            r.disabled == self.disabled,
            r.value@ == self.value@,
            r.label@ == self.label@,
    {
        let mut s = self;
        s.selected = true;
        s
    }

    pub fn disabled(self) -> (r: SelectOption)
        ensures
            r.disabled,
            r.selected == self.selected,
            r.value@ == self.value@,
            r.label@ == self.label@,
    {
        let mut s = self;
        s.disabled = true;
        s
    }
}

} // verus!
