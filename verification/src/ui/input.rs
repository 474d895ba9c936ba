//! A text field that checks what is typed into it against a list of rules.
use vstd::prelude::*;
use vstd::string::StringExecFns;

use crate::text::{has_prefix, is_blank, is_blank_text, parse_usize, parse_usize_spec, starts_with};

verus! {

/// A check that passes when the value is blank or begins with one of the
/// prefixes; otherwise it fails with `message`.
#[derive(Debug, Clone)]
pub struct PrefixRule {
    pub prefixes: Vec<String>,
    pub message: String,
}

/// A rule a field's value must follow.
#[derive(Debug, Clone)]
pub enum ValidationRule {
    /// The value must hold something other than white space.
    NonEmpty,
    /// A value that is not blank must be a decimal number that fits in `usize`.
    IsUsize,
    /// A check of the caller's own.
    Custom(PrefixRule),
}

/// What can happen to a field.
#[derive(Debug, Clone)]
pub enum ValidatedInputMessage {
    ValueChanged(String),
    Validate,
    Clear,
}

/// The message of the `NonEmpty` rule.
pub open spec fn non_empty_message() -> Seq<char> {
    "This field cannot be empty"@
}

/// The message of the `IsUsize` rule.
pub open spec fn is_usize_message() -> Seq<char> {
    "Must be a valid positive number"@
}

/// The message of the link field's check.
pub open spec fn url_message() -> Seq<char> {
    "Must be a valid URL starting with http:// or https://"@
}

/// Whether a check is the link field's: the value must start with `http://`
/// or `https://`, else `url_message` is given.
pub open spec fn is_url_rule(r: PrefixRule) -> bool {
    &&& r.prefixes@.len() == 2
    &&& r.prefixes@[0]@ == "http://"@
    &&& r.prefixes@[1]@ == "https://"@
    &&& r.message@ == url_message()
}

/// The error a rule gives for a value, or none when the value passes.
pub open spec fn rule_error(rule: ValidationRule, value: Seq<char>) -> Option<Seq<char>> {
    match rule {
        ValidationRule::NonEmpty => if is_blank_text(value) {
            Some(non_empty_message())
        } else {
            None
        },
        ValidationRule::IsUsize => if !is_blank_text(value) && parse_usize_spec(value) is None {
            Some(is_usize_message())
        } else {
            None
        },
        ValidationRule::Custom(r) => if is_blank_text(value) || exists|i: int|
            0 <= i < r.prefixes@.len() && has_prefix(value, #[trigger] r.prefixes@[i]@) {
            None
        } else {
            Some(r.message@)
        },
    }
}

/// The error of the first rule, from index `k` on, that the value fails.
pub open spec fn first_error_from(rules: Seq<ValidationRule>, value: Seq<char>, k: int) -> Option<
    Seq<char>,
>
    decreases rules.len() - k,
{
    if k < 0 || k >= rules.len() {
        None
    } else {
        match rule_error(rules[k], value) {
            Some(e) => Some(e),
            None => first_error_from(rules, value, k + 1),
        }
    }
}

/// The error of the first rule the value fails, or none when it passes them all.
pub open spec fn first_error(rules: Seq<ValidationRule>, value: Seq<char>) -> Option<Seq<char>> {
    first_error_from(rules, value, 0)
}

/// The text of an optional string.
pub open spec fn opt_text(s: Option<String>) -> Option<Seq<char>> {
    match s {
        Some(v) => Some(v@),
        None => None,
    }
}

/// A labelled text field with rules.
#[derive(Debug, Clone)]
pub struct ValidatedInput {
    pub value: String,
    pub error: Option<String>,
    pub label: String,
    pub placeholder: String,
    pub rules: Vec<ValidationRule>,
}

proof fn lemma_first_error_skip(rules: Seq<ValidationRule>, value: Seq<char>, i: int, k: int)
    requires
        0 <= k <= i <= rules.len(),
        forall|j: int| k <= j < i ==> #[trigger] rule_error(rules[j], value) is None,
    ensures
        first_error_from(rules, value, k) == first_error_from(rules, value, i),
    decreases i - k,
{
    if k < i {
        lemma_first_error_skip(rules, value, i, k + 1);
    }
}

impl ValidatedInput {
    /// The rules, in the order they are checked.
    pub open spec fn rules(&self) -> Seq<ValidationRule> {
        self.rules@
    }

    /// The label shown above the field.
    pub open spec fn label_text(&self) -> Seq<char> {
        self.label@
    }

    /// The text shown while the field is empty.
    pub open spec fn placeholder_text(&self) -> Seq<char> {
        self.placeholder@
    }

    /// An empty field without rules.
    pub fn new(label: &str, placeholder: &str) -> (r: Self)
        ensures
            r.value@ == Seq::<char>::empty(),
            r.error is None,
            r.label_text() == label@,
            r.placeholder_text() == placeholder@,
            r.rules() == Seq::<ValidationRule>::empty(),
    {
        ValidatedInput {
            value: String::new(),
            error: None,
            label: String::from_str(label),
            placeholder: String::from_str(placeholder),
            rules: Vec::new(),
        }
    }

    /// The same field holding `value`.
    pub fn with_value(self, value: &str) -> (r: Self)
        ensures
            r.value@ == value@,
            r.error == self.error,
            r.label_text() == self.label_text(),
            r.placeholder_text() == self.placeholder_text(),
            r.rules() == self.rules(),
    {
        let mut s = self;
        s.value = String::from_str(value);
        s
    }

    /// The same field with one more rule, checked after the others.
    pub fn with_rule(self, rule: ValidationRule) -> (r: Self)
        ensures
            r.value == self.value,
            r.error == self.error,
            r.label_text() == self.label_text(),
            r.placeholder_text() == self.placeholder_text(),
            r.rules() == self.rules().push(rule),
    {
        let mut s = self;
        s.rules.push(rule);
        s
    }

    /// The same field with these rules in place of its own.
    pub fn with_rules(self, rules: Vec<ValidationRule>) -> (r: Self)
        ensures
            r.value == self.value,
            r.error == self.error,
            r.label_text() == self.label_text(),
            r.placeholder_text() == self.placeholder_text(),
            r.rules() == rules@,
    {
        let mut s = self;
        s.rules = rules;
        s
    }

    /// The same field, which must not be left blank.
    pub fn non_empty(self) -> (r: Self)
        ensures
            r.value == self.value,
            r.error == self.error,
            r.label_text() == self.label_text(),
            r.placeholder_text() == self.placeholder_text(),
            r.rules() == self.rules().push(ValidationRule::NonEmpty),
    {
        self.with_rule(ValidationRule::NonEmpty)
    }

    /// The same field, which must hold a number (or be blank).
    pub fn as_usize(self) -> (r: Self)
        ensures
            r.value == self.value,
            r.error == self.error,
            r.label_text() == self.label_text(),
            r.placeholder_text() == self.placeholder_text(),
            r.rules() == self.rules().push(ValidationRule::IsUsize),
    {
        self.with_rule(ValidationRule::IsUsize)
    }

    /// The same field, with a check of the caller's own.
    pub fn custom_validation(self, rule: PrefixRule) -> (r: Self)
        ensures
            r.value == self.value,
            r.error == self.error,
            r.label_text() == self.label_text(),
            r.placeholder_text() == self.placeholder_text(),
            r.rules() == self.rules().push(ValidationRule::Custom(rule)),
    {
        self.with_rule(ValidationRule::Custom(rule))
    }

    /// Applies a message; answers whether the value changed.
    /// A new value or a clear also drops the error; `Validate` checks the rules.
    pub fn update(&mut self, message: ValidatedInputMessage) -> (changed: bool)
        ensures
            final(self).label_text() == old(self).label_text(),
            final(self).placeholder_text() == old(self).placeholder_text(),
            final(self).rules() == old(self).rules(),
            match message {
                ValidatedInputMessage::ValueChanged(v) => {
                    &&& changed
                    &&& final(self).value == v
                    &&& final(self).error is None
                },
                ValidatedInputMessage::Validate => {
                    &&& !changed
                    &&& final(self).value == old(self).value
                    &&& opt_text(final(self).error) == first_error(old(self).rules(), old(self).value@)
                },
                ValidatedInputMessage::Clear => {
                    &&& changed
                    &&& final(self).value@ == Seq::<char>::empty()
                    &&& final(self).error is None
                },
            },
    {
        match message {
            ValidatedInputMessage::ValueChanged(new_value) => {
                self.value = new_value;
                self.error = None;
                true
            },
            ValidatedInputMessage::Validate => {
                self.validate();
                false
            },
            ValidatedInputMessage::Clear => {
                self.value = String::new();
                self.error = None;
                true
            },
        }
    }

    /// Checks the rules in order; the error becomes that of the first rule the
    /// value fails. Answers whether the value passed them all.
    pub fn validate(&mut self) -> (ok: bool)
        ensures
            final(self).value == old(self).value,
            final(self).label_text() == old(self).label_text(),
            final(self).placeholder_text() == old(self).placeholder_text(),
            final(self).rules() == old(self).rules(),
            opt_text(final(self).error) == first_error(old(self).rules(), old(self).value@),
            ok == (first_error(old(self).rules(), old(self).value@) is None),
    {
        self.error = None;
        let mut i: usize = 0;
        while i < self.rules.len()
            invariant
                self.value == old(self).value,
                self.label == old(self).label,
                self.placeholder == old(self).placeholder,
                self.rules == old(self).rules,
                self.error is None,
                i <= self.rules@.len(),
                forall|j: int| 0 <= j < i ==> #[trigger] rule_error(self.rules@[j], self.value@) is None,
            decreases self.rules@.len() - i,
        {
            match self.apply_rule(&self.rules[i]) {
                Err(msg) => {
                    proof {
                        lemma_first_error_skip(self.rules@, self.value@, i as int, 0);
                    }
                    self.error = Some(msg);
                    return false;
                },
                Ok(()) => {},
            }
            i = i + 1;
        }
        proof {
            lemma_first_error_skip(self.rules@, self.value@, self.rules@.len() as int, 0);
        }
        true
    }

    /// Checks one rule against the value.
    fn apply_rule(&self, rule: &ValidationRule) -> (r: Result<(), String>)
        ensures
            match rule_error(*rule, self.value@) {
                Some(e) => r matches Err(msg) && msg@ == e,
                None => r is Ok,
            },
    {
        match rule {
            ValidationRule::NonEmpty => {
                if is_blank(self.value.as_str()) {
                    Err(String::from_str("This field cannot be empty"))
                } else {
                    Ok(())
                }
            },
            ValidationRule::IsUsize => {
                if is_blank(self.value.as_str()) {
                    Ok(())
                } else if parse_usize(self.value.as_str()).is_none() {
                    Err(String::from_str("Must be a valid positive number"))
                } else {
                    Ok(())
                }
            },
            ValidationRule::Custom(custom) => {
                if is_blank(self.value.as_str()) {
                    return Ok(());
                }
                let mut i: usize = 0;
                while i < custom.prefixes.len()
                    invariant
                        *rule == ValidationRule::Custom(*custom),
                        !is_blank_text(self.value@),
                        i <= custom.prefixes@.len(),
                        forall|j: int|
                            0 <= j < i ==> !has_prefix(self.value@, #[trigger] custom.prefixes@[j]@),
                    decreases custom.prefixes@.len() - i,
                {
                    if starts_with(self.value.as_str(), custom.prefixes[i].as_str()) {
                        assert(has_prefix(self.value@, custom.prefixes@[i as int]@));
                        return Ok(());
                    }
                    i = i + 1;
                }
                Err(custom.message.clone())
            },
        }
    }

    /// Whether the field has no error.
    pub fn is_valid(&self) -> (r: bool)
        ensures
            r == (self.error is None),
    {
        self.error.is_none()
    }

    /// Whether the field has an error.
    pub fn has_error(&self) -> (r: bool)
        ensures
            r == (self.error is Some),
    {
        self.error.is_some()
    }

    /// The number the field holds: none when it is blank or not a number.
    pub fn get_usize_value(&self) -> (r: Option<usize>)
        ensures
            r == (if is_blank_text(self.value@) {
                None
            } else {
                parse_usize_spec(self.value@)
            }),
    {
        if is_blank(self.value.as_str()) {
            None
        } else {
            parse_usize(self.value.as_str())
        }
    }

    /// The label.
    pub fn label(&self) -> (r: &String)
        ensures
            r@ == self.label_text(),
    {
        &self.label
    }

    /// The placeholder.
    pub fn placeholder(&self) -> (r: &String)
        ensures
            r@ == self.placeholder_text(),
    {
        &self.placeholder
    }

    /// A field for the directory to download into; it must not be blank.
    pub fn directory_input() -> (r: Self)
        ensures
            r.value@ == Seq::<char>::empty(),
            r.error is None,
            r.label_text() == "Directory"@,
            r.placeholder_text() == "Directory for downloading the file"@,
            r.rules() == seq![ValidationRule::NonEmpty],
    {
        let r = Self::new("Directory", "Directory for downloading the file").non_empty();
        assert(r.rules() =~= seq![ValidationRule::NonEmpty]);
        r
    }

    /// A field for the link to download; it must not be blank and must start
    /// with `http://` or `https://`.
    pub fn url_input() -> (r: Self)
        ensures
            r.value@ == Seq::<char>::empty(),
            r.error is None,
            r.label_text() == "Link"@,
            r.placeholder_text() == "Enter your download link here"@,
            r.rules().len() == 2,
            r.rules()[0] is NonEmpty,
            r.rules()[1] matches ValidationRule::Custom(c) && c.prefixes@.len() == 2
                && c.prefixes@[0]@ == "http://"@ && c.prefixes@[1]@ == "https://"@
                && c.message@ == url_message(),
    {
        Self::new("Link", "Enter your download link here").non_empty().custom_validation(
            url_rule(),
        )
    }

    /// A field without rules.
    pub fn optional_text_input(label: &str, placeholder: &str) -> (r: Self)
        ensures
            r.value@ == Seq::<char>::empty(),
            r.error is None,
            r.label_text() == label@,
            r.placeholder_text() == placeholder@,
            r.rules() == Seq::<ValidationRule>::empty(),
    {
        Self::new(label, placeholder)
    }
}

/// The check of a link field: it must start with `http://` or `https://`.
pub fn url_rule() -> (r: PrefixRule)
    ensures
        r.prefixes@.len() == 2,
        r.prefixes@[0]@ == "http://"@,
        r.prefixes@[1]@ == "https://"@,
        r.message@ == url_message(),
{
    let mut prefixes: Vec<String> = Vec::new();
    prefixes.push(String::from_str("http://"));
    prefixes.push(String::from_str("https://"));
    PrefixRule {
        prefixes,
        message: String::from_str("Must be a valid URL starting with http:// or https://"),
    }
}

} // verus!
