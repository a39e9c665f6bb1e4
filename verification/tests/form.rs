use mc_link::form::{
    check_field, create_server_config, AddServerForm, FieldType, FormField, FormState,
    ValidationResult, Validator,
};
use mc_link::servers::{ConnectionType, ModLoader};
use mc_link::string_map::StringMap;

fn field(name: &str, required: bool, validation: Option<Validator>) -> FormField {
    FormField {
        name: name.to_string(),
        label: format!("The {}", name),
        required,
        field_type: FieldType::Text,
        validation,
        help_text: None,
    }
}

fn type_text(form: &mut FormState, text: &str) {
    for c in text.chars() {
        form.handle_char(c);
    }
}

fn values(pairs: &[(&str, &str)]) -> StringMap<String> {
    let mut map = StringMap::new();
    for (k, v) in pairs {
        map.insert(k.to_string(), v.to_string());
    }
    map
}

#[test]
fn validators_refuse_with_their_message() {
    let not_blank = Validator::NotBlank { message: "empty".to_string() };
    assert_eq!(not_blank.check("x"), ValidationResult::Valid);
    assert_eq!(not_blank.check(" \t"), ValidationResult::Invalid("empty".to_string()));
    let identifier = Validator::Identifier {
        blank_message: "empty".to_string(),
        invalid_message: "bad".to_string(),
    };
    assert_eq!(identifier.check("srv-1_b"), ValidationResult::Valid);
    assert_eq!(identifier.check("über9"), ValidationResult::Valid);
    assert_eq!(identifier.check(""), ValidationResult::Invalid("empty".to_string()));
    assert_eq!(identifier.check("a b"), ValidationResult::Invalid("bad".to_string()));
    assert_eq!(identifier.check("a.b"), ValidationResult::Invalid("bad".to_string()));
    let one_of = Validator::OneOf {
        options: vec!["local".to_string(), "ftp".to_string()],
        ignore_case: true,
        message: "neither".to_string(),
    };
    assert_eq!(one_of.check("FTP"), ValidationResult::Valid);
    assert_eq!(one_of.check("ssh"), ValidationResult::Invalid("neither".to_string()));
    let exact = Validator::OneOf {
        options: vec!["Forge".to_string()],
        ignore_case: false,
        message: "no".to_string(),
    };
    assert_eq!(exact.check("Forge"), ValidationResult::Valid);
    assert_eq!(exact.check("forge"), ValidationResult::Invalid("no".to_string()));
}

#[test]
fn required_fields_come_before_their_checks() {
    let checked = field("a", true, Some(Validator::NotBlank { message: "custom".to_string() }));
    assert_eq!(check_field(&checked, "  "), Some("The a is required".to_string()));
    let optional = field("a", false, Some(Validator::NotBlank { message: "custom".to_string() }));
    assert_eq!(check_field(&optional, "  "), Some("custom".to_string()));
    assert_eq!(check_field(&optional, "x"), None);
    assert_eq!(check_field(&field("a", false, None), ""), None);
}

#[test]
fn typing_moves_through_the_fields() {
    let mut form = FormState::new(vec![field("a", true, None), field("b", false, None)]);
    assert_eq!(form.current_field_name(), Some("a"));
    assert_eq!(form.values.get("a").map(|s| s.as_str()), Some(""));
    type_text(&mut form, "hi!");
    form.handle_backspace();
    assert_eq!(form.values.get("a").map(|s| s.as_str()), Some("hi"));
    form.previous_field();
    assert_eq!(form.current_field, 0);
    form.next_field();
    assert_eq!(form.current_field_name(), Some("b"));
    form.next_field();
    assert_eq!(form.current_field, 1);
    form.handle_backspace();
    type_text(&mut form, "x");
    assert_eq!(form.values.get("b").map(|s| s.as_str()), Some("x"));
    form.current_field = 7;
    assert_eq!(form.current_field_name(), None);
    form.handle_char('z');
    form.handle_backspace();
    assert_eq!(form.values.get("a").map(|s| s.as_str()), Some("hi"));
    assert_eq!(form.values.get("b").map(|s| s.as_str()), Some("x"));
}

#[test]
fn validation_keeps_the_errors_and_typing_clears_them() {
    let mut form = FormState::new(vec![
        field("a", true, None),
        field("b", false, Some(Validator::NotBlank { message: "b is blank".to_string() })),
        field("c", false, None),
    ]);
    assert!(!form.validate());
    assert_eq!(form.errors.len(), 2);
    assert_eq!(form.errors.get("a").map(|s| s.as_str()), Some("The a is required"));
    assert_eq!(form.errors.get("b").map(|s| s.as_str()), Some("b is blank"));
    type_text(&mut form, "x");
    assert_eq!(form.errors.get("a"), None);
    assert_eq!(form.errors.len(), 1);
    let errors = form.submit().unwrap_err();
    assert!(form.submitted);
    assert_eq!(errors.len(), 1);
    assert_eq!(errors.get("b").map(|s| s.as_str()), Some("b is blank"));
    form.next_field();
    type_text(&mut form, "y");
    assert!(form.validate());
    assert!(form.errors.is_empty());
    let submitted = form.submit().unwrap();
    assert_eq!(submitted.get("a").map(|s| s.as_str()), Some("x"));
    assert_eq!(submitted.get("b").map(|s| s.as_str()), Some("y"));
    assert_eq!(submitted.get("c").map(|s| s.as_str()), Some(""));
}

#[test]
fn the_server_form_has_its_eight_fields() {
    let form = AddServerForm::new();
    let state = form.form_state();
    let names: Vec<&str> = state.fields.iter().map(|f| f.name.as_str()).collect();
    assert_eq!(
        names,
        vec![
            "id",
            "name",
            "connection_type",
            "target",
            "username",
            "password",
            "minecraft_version",
            "mod_loader"
        ]
    );
    let required: Vec<bool> = state.fields.iter().map(|f| f.required).collect();
    assert_eq!(required, vec![true, true, true, true, false, false, true, true]);
    assert_eq!(state.fields[5].field_type, FieldType::Password);
    assert_eq!(state.fields[2].field_type, FieldType::Select(()));
    assert_eq!(state.values.len(), 8);
    assert_eq!(state.values.get("minecraft_version").map(|s| s.as_str()), Some("1.21.1"));
    assert_eq!(state.values.get("mod_loader").map(|s| s.as_str()), Some("NeoForge"));
    for name in ["id", "name", "connection_type", "target", "username", "password"] {
        assert_eq!(state.values.get(name).map(|s| s.as_str()), Some(""), "value of {}", name);
    }
    assert_eq!(state.current_field, 0);
    assert!(state.errors.is_empty());
    assert!(!state.submitted);
}

#[test]
fn the_server_form_is_filled_in_and_submitted() {
    let mut form = AddServerForm::new();
    let state = form.form_state_mut();
    assert!(state.submit().is_err());
    assert_eq!(state.errors.len(), 4);
    type_text(state, "survival");
    state.next_field();
    type_text(state, "Survival World");
    state.next_field();
    type_text(state, "FTP");
    state.next_field();
    type_text(state, "ftp.example.com:2121");
    state.next_field();
    type_text(state, "steve");
    let submitted = state.submit().unwrap();
    let config = create_server_config(&submitted).unwrap();
    assert_eq!(config.id, "survival");
    assert_eq!(config.name, "Survival World");
    assert!(config.enabled);
    match &config.connection {
        ConnectionType::Ftp(ftp) => {
            assert_eq!(ftp.host, "ftp.example.com");
            assert_eq!(ftp.port, 2121);
            assert_eq!(ftp.username, "steve");
            assert_eq!(ftp.password.as_deref(), Some(""));
            assert_eq!(ftp.base_path, "/");
            assert!(ftp.passive_mode);
        }
        other => panic!("not an FTP connection: {:?}", other),
    }
    assert_eq!(config.settings.minecraft_version.as_deref(), Some("1.21.1"));
    assert_eq!(config.settings.mod_loader, ModLoader::NeoForge);
    assert_eq!(config.validate(), Ok(()));
}

#[test]
fn server_configurations_follow_the_values() {
    let local = values(&[
        ("connection_type", "Local"),
        ("target", "/srv/mc"),
        ("id", "a"),
        ("name", "A"),
        ("mod_loader", "Fabric"),
    ]);
    let config = create_server_config(&local).unwrap();
    assert_eq!(
        config.connection,
        ConnectionType::Local(mc_link::servers::LocalConnection { path: "/srv/mc".to_string() })
    );
    assert_eq!(config.settings.mod_loader, ModLoader::Fabric);
    assert_eq!(config.settings.minecraft_version, None);
    let ftp = values(&[("connection_type", "ftp"), ("target", "host"), ("id", "a"), ("name", "A")]);
    match create_server_config(&ftp).unwrap().connection {
        ConnectionType::Ftp(ftp) => {
            assert_eq!((ftp.host.as_str(), ftp.port), ("host", 21));
            assert_eq!(ftp.username, "");
            assert_eq!(ftp.password, None);
        }
        other => panic!("not an FTP connection: {:?}", other),
    }
    let other =
        values(&[("connection_type", "ssh"), ("target", "host"), ("id", "a"), ("name", "A")]);
    assert_eq!(create_server_config(&other), Err("Invalid connection type".to_string()));
}
