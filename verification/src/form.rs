//! Forms: fields that take text, with their values and their errors.

use crate::servers::{
    ftp_target, target_host, target_port, ConnectionType, FtpConnection, LocalConnection,
    ModLoader, ServerConfig,
};
use crate::string_map::StringMap;
use crate::text::{
    chars_of, char_is_alphanumeric, contains_string, is_blank, lowercase_of, slice, str_is_blank,
    string_of, strings_view, text_map, without_last,
};
use crate::types::opt_view;
use vstd::prelude::*;
use vstd::string::StringExecFns;

verus! {

/// The outcome of checking one value.
#[derive(Debug, Clone, PartialEq, Eq)]
pub enum ValidationResult {
    /// The value is in order.
    Valid,
    /// The value is refused, for the reason given.
    Invalid(String),
}

/// The kinds of field.
#[derive(Debug, Clone, Copy, PartialEq, Eq)]
pub enum FieldType {
    /// Free text.
    Text,
    /// One of a few words.
    Select(()),
    /// Text that is not shown.
    Password,
}

/// A check that a field makes on its value.
#[derive(Debug, Clone, PartialEq, Eq)]
pub enum Validator {
    /// The value must hold more than whitespace.
    NotBlank { message: String },
    /// The value must hold more than whitespace, and nothing but letters,
    /// digits, hyphens and underscores.
    Identifier { blank_message: String, invalid_message: String },
    /// The value, or its lowercase where case is ignored, must be one of
    /// the options.
    OneOf { options: Vec<String>, ignore_case: bool, message: String },
}

/// Whether a character may stand in an identifier.
pub open spec fn is_identifier_char(c: char) -> bool {
    char_is_alphanumeric(c) || c == '_' || c == '-'
}

/// The reason for which `validator` refuses `value`, if it does.
pub open spec fn refusal(validator: Validator, value: Seq<char>) -> Option<Seq<char>> {
    match validator {
        Validator::NotBlank { message } => if is_blank(value) {
            Some(message@)
        } else {
            None
        },
        Validator::Identifier { blank_message, invalid_message } => if is_blank(value) {
            Some(blank_message@)
        } else if !(forall|i: int| 0 <= i < value.len() ==> is_identifier_char(#[trigger] value[i])) {
            Some(invalid_message@)
        } else {
            None
        },
        Validator::OneOf { options, ignore_case, message } => if strings_view(options@).contains(
            if ignore_case {
                lowercase_of(value)
            } else {
                value
            },
        ) {
            None
        } else {
            Some(message@)
        },
    }
}

impl Validator {
    /// Checks `value`.
    #[verifier::loop_isolation(false)]
    pub fn check(&self, value: &str) -> (result: ValidationResult)
        ensures
            match result {
                ValidationResult::Valid => refusal(*self, value@) is None,
                ValidationResult::Invalid(reason) => refusal(*self, value@) == Some(reason@),
            },
    {
        match self {
            Validator::NotBlank { message } => {
                if str_is_blank(value) {
                    ValidationResult::Invalid(message.clone())
                } else {
                    ValidationResult::Valid
                }
            },
            Validator::Identifier { blank_message, invalid_message } => {
                if str_is_blank(value) {
                    return ValidationResult::Invalid(blank_message.clone());
                }
                let chars = chars_of(value);
                let mut i: usize = 0;
                while i < chars.len()
                    invariant
                        i <= chars.len(),
                        chars@ == value@,
                        forall|j: int| 0 <= j < i ==> is_identifier_char(#[trigger] chars[j]),
                    decreases chars.len() - i,
                {
                    let c = chars[i];
                    if !(c.is_alphanumeric() || c == '_' || c == '-') {
                        assert(!is_identifier_char(value@[i as int]));
                        return ValidationResult::Invalid(invalid_message.clone());
                    }
                    i += 1;
                }
                ValidationResult::Valid
            },
            Validator::OneOf { options, ignore_case, message } => {
                let key = if *ignore_case {
                    value.to_lowercase()
                } else {
                    value.to_owned()
                };
                if contains_string(options, &key) {
                    ValidationResult::Valid
                } else {
                    ValidationResult::Invalid(message.clone())
                }
            },
        }
    }
}

/// One field of a form.
#[derive(Debug, Clone, PartialEq, Eq)]
pub struct FormField {
    /// The key of the field's value.
    pub name: String,
    /// The words shown beside the field.
    pub label: String,
    /// Whether the field must be filled in.
    pub required: bool,
    /// The kind of field.
    pub field_type: FieldType,
    /// The check made on the value, where one is made.
    pub validation: Option<Validator>,
    /// Help for the person filling the field in.
    pub help_text: Option<String>,
}

/// The error of `field` for the value `value`, if it has one: a required
/// field that is blank says so, and any other value goes to the field's check.
pub open spec fn field_error(field: FormField, value: Seq<char>) -> Option<Seq<char>> {
    if field.required && is_blank(value) {
        Some(field.label@ + " is required"@)
    } else {
        match field.validation {
            Some(validator) => refusal(validator, value),
            None => None,
        }
    }
}

/// The text stored for `name`, or no text where nothing is stored.
pub open spec fn value_text(values: Map<Seq<char>, String>, name: Seq<char>) -> Seq<char> {
    if values.contains_key(name) {
        values[name]@
    } else {
        Seq::empty()
    }
}

/// The errors of `fields` for the values `values`, by the names of the fields.
pub open spec fn errors_of(fields: Seq<FormField>, values: Map<Seq<char>, String>) -> Map<
    Seq<char>,
    Seq<char>,
>
    decreases fields.len(),
{
    if fields.len() == 0 {
        Map::empty()
    } else {
        let rest = errors_of(fields.drop_last(), values);
        match field_error(fields.last(), value_text(values, fields.last().name@)) {
            Some(reason) => rest.insert(fields.last().name@, reason),
            None => rest,
        }
    }
}

/// The values of a form that nothing was typed into: no text for each field.
pub open spec fn blank_values(fields: Seq<FormField>) -> Map<Seq<char>, Seq<char>>
    decreases fields.len(),
{
    if fields.len() == 0 {
        Map::empty()
    } else {
        blank_values(fields.drop_last()).insert(fields.last().name@, Seq::empty())
    }
}

/// A form that nothing was typed into has no text for every one of its fields.
pub proof fn lemma_blank_values(fields: Seq<FormField>, i: int)
    requires
        0 <= i < fields.len(),
    ensures
        blank_values(fields).contains_key(fields[i].name@),
        blank_values(fields)[fields[i].name@] == Seq::<char>::empty(),
    decreases fields.len(),
{
    if i < fields.len() - 1 {
        lemma_blank_values(fields.drop_last(), i);
    }
}

/// Checks the value of one field.
pub fn check_field(field: &FormField, value: &str) -> (error: Option<String>)
    ensures
        opt_view(error) == field_error(*field, value@),
{
    if field.required && str_is_blank(value) {
        let message = field.label.clone().concat(" is required");
        return Some(message);
    }
    match &field.validation {
        None => None,
        Some(validator) => match validator.check(value) {
            ValidationResult::Valid => None,
            ValidationResult::Invalid(reason) => Some(reason),
        },
    }
}

/// A form as it is being filled in.
#[derive(Debug, Clone, PartialEq, Eq)]
pub struct FormState {
    /// The fields, in the order in which they are shown.
    pub fields: Vec<FormField>,
    /// The values, by the names of the fields.
    pub values: StringMap<String>,
    /// The place of the field that takes the typing.
    pub current_field: usize,
    /// The errors of the last check, by the names of the fields.
    pub errors: StringMap<String>,
    /// Whether the form was submitted.
    pub submitted: bool,
}

impl FormState {
    /// The name of the field that takes the typing, where there is one.
    pub open spec fn current_name(&self) -> Option<Seq<char>> {
        if self.current_field < self.fields@.len() {
            Some(self.fields@[self.current_field as int].name@)
        } else {
            None
        }
    }

    /// Whether typing reaches a value: a field takes it and has a value.
    pub open spec fn typing_lands(&self) -> bool {
        self.current_name() is Some && self.values@.contains_key(self.current_name()->0)
    }

    /// A form with no text in any field.
    pub fn new(fields: Vec<FormField>) -> (form: Self)
        ensures
            form.fields == fields,
            text_map(form.values@) == blank_values(fields@),
            form.current_field == 0,
            form.errors@ == Map::<Seq<char>, String>::empty(),
            !form.submitted,
    {
        let mut values: StringMap<String> = StringMap::new();
        let mut i: usize = 0;
        proof {
            assert(fields@.take(0) =~= Seq::<FormField>::empty());
            assert(text_map(values@) =~= blank_values(fields@.take(0)));
        }
        while i < fields.len()
            invariant
                i <= fields.len(),
                text_map(values@) == blank_values(fields@.take(i as int)),
            decreases fields.len() - i,
        {
            let ghost before = values@;
            let empty = String::new();
            values.insert(fields[i].name.clone(), empty);
            proof {
                assert(fields@.take(i as int + 1).drop_last() =~= fields@.take(i as int));
                assert(text_map(before.insert(fields@[i as int].name@, empty)) =~= text_map(
                    before,
                ).insert(fields@[i as int].name@, Seq::empty()));
            }
            i += 1;
        }
        assert(fields@.take(i as int) =~= fields@);
        FormState { fields, values, current_field: 0, errors: StringMap::new(), submitted: false }
    }

    /// Moves to the next field, unless the last one is reached.
    pub fn next_field(&mut self)
        requires
            old(self).fields@.len() > 0,
        ensures
            final(self).current_field == (if old(self).current_field < old(self).fields@.len()
                - 1 {
                old(self).current_field + 1
            } else {
                old(self).current_field as int
            }),
            final(self).fields == old(self).fields,
            final(self).values == old(self).values,
            final(self).errors == old(self).errors,
            final(self).submitted == old(self).submitted,
    {
        if self.current_field < self.fields.len() - 1 {
            self.current_field += 1;
        }
    }

    /// Moves to the previous field, unless the first one is reached.
    pub fn previous_field(&mut self)
        ensures
            final(self).current_field == (if old(self).current_field > 0 {
                old(self).current_field - 1
            } else {
                0
            }),
            final(self).fields == old(self).fields,
            final(self).values == old(self).values,
            final(self).errors == old(self).errors,
            final(self).submitted == old(self).submitted,
    {
        if self.current_field > 0 {
            self.current_field -= 1;
        }
    }

    /// The name of the field that takes the typing.
    pub fn current_field_name(&self) -> (name: Option<&str>)
        ensures
            match name {
                Some(n) => self.current_name() == Some(n@),
                None => self.current_name() is None,
            },
    {
        if self.current_field < self.fields.len() {
            Some(self.fields[self.current_field].name.as_str())
        } else {
            None
        }
    }

    /// Puts `text` in the place of the value of the current field and
    /// clears the field's error.
    fn replace_current(&mut self, name: String, text: String)
        requires
            old(self).typing_lands(),
            old(self).current_name() == Some(name@),
        ensures
            text_map(final(self).values@) == text_map(old(self).values@).insert(name@, text@),
            final(self).errors@ == old(self).errors@.remove(name@),
            final(self).fields == old(self).fields,
            final(self).current_field == old(self).current_field,
            final(self).submitted == old(self).submitted,
    {
        let ghost before = self.values@;
        self.errors.remove(name.as_str());
        self.values.insert(name, text);
        assert(text_map(before.insert(name@, text)) =~= text_map(before).insert(name@, text@));
    }

    /// Types `c` into the current field: the character goes to the end of
    /// its value and the field's error is cleared. Nothing happens where
    /// no field with a value takes the typing.
    pub fn handle_char(&mut self, c: char)
        ensures
            final(self).fields == old(self).fields,
            final(self).current_field == old(self).current_field,
            final(self).submitted == old(self).submitted,
            old(self).typing_lands() ==> text_map(final(self).values@) == text_map(
                old(self).values@,
            ).insert(
                old(self).current_name()->0,
                old(self).values@[old(self).current_name()->0]@.push(c),
            ) && final(self).errors@ == old(self).errors@.remove(old(self).current_name()->0),
            !old(self).typing_lands() ==> final(self).values == old(self).values && final(self).errors == old(self).errors,
    {
        if self.current_field < self.fields.len() {
            let name = self.fields[self.current_field].name.clone();
            let typed = match self.values.get(name.as_str()) {
                Some(value) => {
                    let mut text = value.clone();
                    text.push(c);
                    Some(text)
                },
                None => None,
            };
            match typed {
                Some(text) => {
                    self.replace_current(name, text);
                },
                None => {},
            }
        }
    }

    /// Takes the last character of the current field's value away and
    /// clears the field's error. Nothing happens where no field with a
    /// value takes the typing.
    pub fn handle_backspace(&mut self)
        ensures
            final(self).fields == old(self).fields,
            final(self).current_field == old(self).current_field,
            final(self).submitted == old(self).submitted,
            old(self).typing_lands() ==> text_map(final(self).values@) == text_map(
                old(self).values@,
            ).insert(
                old(self).current_name()->0,
                without_last(old(self).values@[old(self).current_name()->0]@),
            ) && final(self).errors@ == old(self).errors@.remove(old(self).current_name()->0),
            !old(self).typing_lands() ==> final(self).values == old(self).values && final(self).errors == old(self).errors,
    {
        if self.current_field < self.fields.len() {
            let name = self.fields[self.current_field].name.clone();
            let typed = match self.values.get(name.as_str()) {
                Some(value) => {
                    let chars = chars_of(value.as_str());
                    let kept = if chars.len() > 0 {
                        slice(&chars, 0, chars.len() - 1)
                    } else {
                        chars
                    };
                    assert(kept@ =~= without_last(value@));
                    Some(string_of(&kept))
                },
                None => None,
            };
            match typed {
                Some(text) => {
                    self.replace_current(name, text);
                },
                None => {},
            }
        }
    }

    /// Checks every field and keeps the errors, by the names of the
    /// fields. Returns whether the form is free of errors.
    pub fn validate(&mut self) -> (valid: bool)
        ensures
            final(self).fields == old(self).fields,
            final(self).values == old(self).values,
            final(self).current_field == old(self).current_field,
            final(self).submitted == old(self).submitted,
            text_map(final(self).errors@) == errors_of(old(self).fields@, old(self).values@),
            valid == (errors_of(old(self).fields@, old(self).values@) == Map::<
                Seq<char>,
                Seq<char>,
            >::empty()),
    {
        self.errors.clear();
        let mut valid = true;
        let mut i: usize = 0;
        proof {
            assert(self.fields@.take(0) =~= Seq::<FormField>::empty());
            assert(text_map(self.errors@) =~= errors_of(self.fields@.take(0), self.values@));
        }
        while i < self.fields.len()
            invariant
                i <= self.fields.len(),
                self.fields == old(self).fields,
                self.values == old(self).values,
                self.current_field == old(self).current_field,
                self.submitted == old(self).submitted,
                text_map(self.errors@) == errors_of(self.fields@.take(i as int), self.values@),
                valid == (errors_of(self.fields@.take(i as int), self.values@) == Map::<
                    Seq<char>,
                    Seq<char>,
                >::empty()),
            decreases self.fields.len() - i,
        {
            let ghost before = self.errors@;
            let ghost seen = errors_of(self.fields@.take(i as int), self.values@);
            proof {
                assert(self.fields@.take(i as int + 1).drop_last() =~= self.fields@.take(i as int));
                assert(self.fields@.take(i as int + 1).last() == self.fields@[i as int]);
            }
            let value = match self.values.get(self.fields[i].name.as_str()) {
                Some(v) => v.clone(),
                None => String::new(),
            };
            match check_field(&self.fields[i], value.as_str()) {
                Some(reason) => {
                    let name = self.fields[i].name.clone();
                    self.errors.insert(name, reason);
                    valid = false;
                    proof {
                        assert(text_map(before.insert(name@, reason)) =~= text_map(before).insert(
                            name@,
                            reason@,
                        ));
                        assert(seen.insert(name@, reason@).contains_key(name@));
                    }
                },
                None => {},
            }
            i += 1;
        }
        proof {
            assert(self.fields@.take(i as int) =~= self.fields@);
        }
        valid
    }

    /// Submits the form: its values where it is free of errors, else its errors.
    pub fn submit(&mut self) -> (result: Result<StringMap<String>, StringMap<String>>)
        ensures
            final(self).fields == old(self).fields,
            final(self).values == old(self).values,
            final(self).current_field == old(self).current_field,
            final(self).submitted,
            text_map(final(self).errors@) == errors_of(old(self).fields@, old(self).values@),
            match result {
                Ok(values) => errors_of(old(self).fields@, old(self).values@) == Map::<
                    Seq<char>,
                    Seq<char>,
                >::empty() && text_map(values@) == text_map(old(self).values@),
                Err(errors) => errors_of(old(self).fields@, old(self).values@) != Map::<
                    Seq<char>,
                    Seq<char>,
                >::empty() && text_map(errors@) == errors_of(
                    old(self).fields@,
                    old(self).values@,
                ),
            },
    {
        self.submitted = true;
        if self.validate() {
            Ok(self.values.clone_text())
        } else {
            Err(self.errors.clone_text())
        }
    }
}

/// A field of the form that adds a server.
fn server_field(
    name: &str,
    label: &str,
    required: bool,
    field_type: FieldType,
    validation: Option<Validator>,
    help_text: &str,
) -> (field: FormField)
    ensures
        field.name@ == name@,
        field.label@ == label@,
        field.required == required,
        field.field_type == field_type,
        field.validation == validation,
        field.help_text is Some,
        field.help_text->0@ == help_text@,
{
    FormField {
        name: name.to_owned(),
        label: label.to_owned(),
        required,
        field_type,
        validation,
        help_text: Some(help_text.to_owned()),
    }
}

/// The check that refuses a blank value with `message`.
fn not_blank(message: &str) -> (validator: Validator)
    ensures
        validator is NotBlank,
        validator->NotBlank_message@ == message@,
{
    Validator::NotBlank { message: message.to_owned() }
}

/// The names of the fields of the form that adds a server, in order.
pub open spec fn server_field_names() -> Seq<Seq<char>> {
    seq![
        "id"@,
        "name"@,
        "connection_type"@,
        "target"@,
        "username"@,
        "password"@,
        "minecraft_version"@,
        "mod_loader"@,
    ]
}

/// The form that adds a server.
#[derive(Debug, Clone, PartialEq, Eq)]
pub struct AddServerForm {
    form_state: FormState,
}

impl AddServerForm {
    /// The state of the form.
    pub closed spec fn state(&self) -> FormState {
        self.form_state
    }

    /// The form as it is first shown: eight fields, of which all but the
    /// user name and the password are required, with the usual game
    /// version and mod loader filled in.
    pub fn new() -> (form: Self)
        ensures
            form.state().fields@.map_values(|f: FormField| f.name@) == server_field_names(),
            forall|i: int|
                0 <= i < 8 ==> (#[trigger] form.state().fields@[i]).required == (i != 4 && i
                    != 5),
            form.state().current_field == 0,
            !form.state().submitted,
            form.state().errors@ == Map::<Seq<char>, String>::empty(),
            form.state().values@.contains_key("minecraft_version"@),
            form.state().values@["minecraft_version"@]@ == "1.21.1"@,
            form.state().values@.contains_key("mod_loader"@),
            form.state().values@["mod_loader"@]@ == "NeoForge"@,
            forall|i: int|
                0 <= i < 6 ==> form.state().values@.contains_key(#[trigger] server_field_names()[i])
                    && form.state().values@[server_field_names()[i]]@ == Seq::<char>::empty(),
    {
        let mut kinds: Vec<String> = Vec::new();
        kinds.push("local".to_owned());
        kinds.push("ftp".to_owned());
        let mut loaders: Vec<String> = Vec::new();
        loaders.push("NeoForge".to_owned());
        loaders.push("Forge".to_owned());
        loaders.push("Fabric".to_owned());
        let mut fields: Vec<FormField> = Vec::new();
        fields.push(
            server_field(
                "id",
                "Server ID",
                true,
                FieldType::Text,
                Some(
                    Validator::Identifier {
                        blank_message: "Server ID cannot be empty".to_owned(),
                        invalid_message: "Server ID can only contain letters, numbers, hyphens, and underscores".to_owned(),
                    },
                ),
                "Unique identifier for this server (alphanumeric, -, _)",
            ),
        );
        fields.push(
            server_field(
                "name",
                "Display Name",
                true,
                FieldType::Text,
                Some(not_blank("Display name cannot be empty")),
                "Human-readable name for this server",
            ),
        );
        fields.push(
            server_field(
                "connection_type",
                "Connection Type",
                true,
                FieldType::Select(()),
                Some(
                    Validator::OneOf {
                        options: kinds,
                        ignore_case: true,
                        message: "Connection type must be 'local' or 'ftp'".to_owned(),
                    },
                ),
                "Type 'local' for local filesystem or 'ftp' for FTP connection",
            ),
        );
        fields.push(
            server_field(
                "target",
                "Target Path/Host",
                true,
                FieldType::Text,
                Some(not_blank("Target cannot be empty")),
                "For local: filesystem path, for FTP: host:port",
            ),
        );
        fields.push(
            server_field(
                "username",
                "Username (FTP only)",
                false,
                FieldType::Text,
                None,
                "Username for FTP connection (leave empty for local)",
            ),
        );
        fields.push(
            server_field(
                "password",
                "Password (FTP only)",
                false,
                FieldType::Password,
                None,
                "Password for FTP connection (leave empty for local)",
            ),
        );
        fields.push(
            server_field(
                "minecraft_version",
                "Minecraft Version",
                true,
                FieldType::Text,
                Some(not_blank("Minecraft version cannot be empty")),
                "Minecraft version (e.g., 1.21.1)",
            ),
        );
        fields.push(
            server_field(
                "mod_loader",
                "Mod Loader",
                true,
                FieldType::Select(()),
                Some(
                    Validator::OneOf {
                        options: loaders,
                        ignore_case: false,
                        message: "Mod loader must be NeoForge, Forge, or Fabric".to_owned(),
                    },
                ),
                "Type 'NeoForge', 'Forge', or 'Fabric'",
            ),
        );
        assert(fields@.map_values(|f: FormField| f.name@) =~= server_field_names());
        let ghost shown = fields@;
        let mut form_state = FormState::new(fields);
        let ghost blank = form_state.values@;
        form_state.values.insert("minecraft_version".to_owned(), "1.21.1".to_owned());
        form_state.values.insert("mod_loader".to_owned(), "NeoForge".to_owned());
        proof {
            reveal_strlit("id");
            reveal_strlit("name");
            reveal_strlit("connection_type");
            reveal_strlit("target");
            reveal_strlit("username");
            reveal_strlit("password");
            reveal_strlit("minecraft_version");
            reveal_strlit("mod_loader");
            assert("minecraft_version"@.len() != "mod_loader"@.len());
            assert forall|i: int| 0 <= i < 6 implies form_state.values@.contains_key(
                #[trigger] server_field_names()[i],
            ) && form_state.values@[server_field_names()[i]]@ == Seq::<char>::empty() by {
                let key = server_field_names()[i];
                assert(key == shown.map_values(|f: FormField| f.name@)[i]);
                assert(key == shown[i].name@);
                lemma_blank_values(shown, i);
                assert(text_map(blank).contains_key(key));
                assert(blank.contains_key(key));
                assert(text_map(blank)[key] == blank[key]@);
                assert(key.len() != "minecraft_version"@.len());
                assert(key.len() != "mod_loader"@.len());
            }
        }
        AddServerForm { form_state }
    }

    /// The state of the form.
    pub fn form_state(&self) -> (state: &FormState)
        ensures
            *state == self.state(),
    {
        &self.form_state
    }

    /// The state of the form, to change it.
    pub fn form_state_mut(&mut self) -> (state: &mut FormState)
        ensures
            *state == old(self).state(),
            final(self).state() == *final(state),
    {
        &mut self.form_state
    }
}

/// The kind of connection that the values of the form name, where they
/// name one: `local` or `ftp`, in any case.
pub open spec fn chosen_kind(values: Map<Seq<char>, String>) -> Option<bool> {
    if lowercase_of(values["connection_type"@]@) == "local"@ {
        Some(true)
    } else if lowercase_of(values["connection_type"@]@) == "ftp"@ {
        Some(false)
    } else {
        None
    }
}

/// Makes the configuration of a server of the values of the form. Values
/// that name neither a local nor an FTP connection are refused.
pub fn create_server_config(values: &StringMap<String>) -> (result: Result<ServerConfig, String>)
    requires
        values@.contains_key("connection_type"@),
        values@.contains_key("target"@),
        values@.contains_key("id"@),
        values@.contains_key("name"@),
    ensures
        result is Ok <==> chosen_kind(values@) is Some,
        result is Err ==> result->Err_0@ == "Invalid connection type"@,
        result is Ok ==> {
            let config = result->Ok_0;
            &&& config.id@ == values@["id"@]@
            &&& config.name@ == values@["name"@]@
            &&& config.enabled
            &&& chosen_kind(values@) == Some(true) ==> config.connection is Local
                && config.connection->Local_0.path@ == values@["target"@]@
            &&& chosen_kind(values@) == Some(false) ==> {
                &&& config.connection is Ftp
                &&& config.connection->Ftp_0.host@ == target_host(values@["target"@]@)
                &&& config.connection->Ftp_0.port == target_port(values@["target"@]@)
                &&& config.connection->Ftp_0.username@ == value_text(values@, "username"@)
                &&& opt_view(config.connection->Ftp_0.password) == (if values@.contains_key(
                    "password"@,
                ) {
                    Some(values@["password"@]@)
                } else {
                    None
                })
                &&& config.connection->Ftp_0.base_path@ == "/"@
                &&& config.connection->Ftp_0.passive_mode
            }
            &&& opt_view(config.settings.minecraft_version) == (if values@.contains_key(
                "minecraft_version"@,
            ) {
                Some(values@["minecraft_version"@]@)
            } else {
                None
            })
            &&& config.settings.mod_loader == (if values@.contains_key("mod_loader"@) {
                ModLoader::chosen(values@["mod_loader"@]@)
            } else {
                ModLoader::NeoForge
            })
        },
{
    let kind = match values.get("connection_type") {
        Some(k) => k.as_str().to_lowercase(),
        None => String::new(),
    };
    let target = match values.get("target") {
        Some(t) => t.clone(),
        None => String::new(),
    };
    let connection = if crate::text::str_eq(kind.as_str(), "local") {
        ConnectionType::Local(LocalConnection { path: target })
    } else if crate::text::str_eq(kind.as_str(), "ftp") {
        let (host, port) = ftp_target(target.as_str());
        let username = match values.get("username") {
            Some(u) => u.clone(),
            None => String::new(),
        };
        let password = match values.get("password") {
            Some(p) => Some(p.clone()),
            None => None,
        };
        let base = FtpConnection::default();
        ConnectionType::Ftp(
            FtpConnection {
                host,
                port,
                username,
                password,
                base_path: base.base_path,
                passive_mode: base.passive_mode,
            },
        )
    } else {
        return Err("Invalid connection type".to_owned());
    };
    let id = match values.get("id") {
        Some(v) => v.clone(),
        None => String::new(),
    };
    let name = match values.get("name") {
        Some(v) => v.clone(),
        None => String::new(),
    };
    let mut config = ServerConfig::new(id, name);
    config.connection = connection;
    config.enabled = true;
    match values.get("minecraft_version") {
        Some(version) => {
            config.settings.minecraft_version = Some(version.clone());
        },
        None => {},
    }
    match values.get("mod_loader") {
        Some(loader) => {
            config.settings.mod_loader = ModLoader::from_word(loader.as_str());
        },
        None => {},
    }
    Ok(config)
}

} // verus!
