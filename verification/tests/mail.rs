use app_libs::utils::env::{EnvError, VarError, Vars};
use app_libs::utils::lettre::{
    AddressErrorKind, EmailBuilder, EmailConfig, Lettre, LettreError, MessageError,
};

fn formatted(message: &lettre::Message) -> String {
    String::from_utf8(message.formatted()).unwrap()
}

#[test]
fn builds_a_plain_text_message() {
    let message = EmailBuilder::new()
        .from("Alice <alice@example.com>")
        .unwrap()
        .to("bob@example.com")
        .unwrap()
        .cc("carol@example.com")
        .unwrap()
        .subject("Hello")
        .text_body("Hi Bob")
        .build()
        .unwrap();
    let text = formatted(message.message());
    assert!(text.contains("From: Alice <alice@example.com>"));
    assert!(text.contains("To: bob@example.com"));
    assert!(text.contains("Cc: carol@example.com"));
    assert!(text.contains("Subject: Hello"));
    assert!(text.contains("Content-Type: text/plain; charset=utf-8"));
    assert!(text.contains("Hi Bob"));
}

#[test]
fn html_body_sets_html_content_type() {
    let message = EmailBuilder::new()
        .from_with_name("Alice", "alice@example.com")
        .unwrap()
        .to_with_name("Bob", "bob@example.com")
        .unwrap()
        .reply_to("help@example.com")
        .unwrap()
        .text_body("plain")
        .html_body("<p>Hi</p>")
        .build()
        .unwrap();
    let text = formatted(message.message());
    assert!(text.contains("Content-Type: text/html; charset=utf-8"));
    assert!(text.contains("To: Bob <bob@example.com>"));
    assert!(text.contains("Reply-To: help@example.com"));
    assert!(text.contains("<p>Hi</p>"));
    assert!(!text.contains("plain\r\n"));
}

#[test]
fn bcc_recipients_are_in_the_envelope_only() {
    let message = EmailBuilder::new()
        .from("alice@example.com")
        .unwrap()
        .to("bob@example.com")
        .unwrap()
        .bcc("secret@example.com")
        .unwrap()
        .build()
        .unwrap();
    assert!(!formatted(message.message()).contains("secret@example.com"));
    assert_eq!(message.message().envelope().to().len(), 2);
}

#[test]
fn build_without_sender_is_refused() {
    let r = EmailBuilder::new().to("bob@example.com").unwrap().build();
    assert!(matches!(r, Err(LettreError::MessageBuilder(MessageError::MissingFrom))));
}

#[test]
fn build_without_recipient_is_refused() {
    let r = EmailBuilder::new().from("alice@example.com").unwrap().build();
    assert!(matches!(r, Err(LettreError::MessageBuilder(MessageError::MissingTo))));
}

#[test]
fn address_without_at_sign_is_refused() {
    let r = EmailBuilder::new().from_with_name("Alice", "alice.example.com");
    assert!(matches!(
        r,
        Err(LettreError::InvalidAddress(AddressErrorKind::MissingParts))
    ));
}

#[test]
fn malformed_mailbox_is_refused() {
    let r = EmailBuilder::new().to("not a mailbox");
    assert!(matches!(r, Err(LettreError::InvalidAddress(_))));
}

#[test]
fn configuration_builders() {
    let c = EmailConfig::new("smtp.example.com".to_string(), "user".to_string(), "pw".to_string());
    assert_eq!(c.smtp_port, None);
    assert!(c.use_tls);
    let c = c.with_port(2525).with_tls(false);
    assert_eq!(c.smtp_port, Some(2525));
    assert!(!c.use_tls);
    assert_eq!(c.smtp_host, "smtp.example.com");
}

fn smtp_vars() -> Vars {
    let mut vars = Vars::new();
    vars.set("SMTP_HOST".to_string(), "smtp.example.com".to_string());
    vars.set("SMTP_USERNAME".to_string(), "user".to_string());
    vars.set("SMTP_PASSWORD".to_string(), "pw".to_string());
    vars
}

#[test]
fn configuration_from_environment_defaults() {
    let c = EmailConfig::from_env(&smtp_vars()).unwrap();
    assert_eq!(c.smtp_host, "smtp.example.com");
    assert_eq!(c.smtp_port, None);
    assert_eq!(c.username, "user");
    assert_eq!(c.password, "pw");
    assert!(c.use_tls);
}

#[test]
fn configuration_from_environment_reads_port_and_tls() {
    let mut vars = smtp_vars();
    vars.set("SMTP_PORT".to_string(), "587".to_string());
    vars.set("SMTP_USE_TLS".to_string(), "false".to_string());
    let c = EmailConfig::from_env(&vars).unwrap();
    assert_eq!(c.smtp_port, Some(587));
    assert!(!c.use_tls);

    vars.set("SMTP_PORT".to_string(), "70000".to_string());
    vars.set("SMTP_USE_TLS".to_string(), "no".to_string());
    let c = EmailConfig::from_env(&vars).unwrap();
    assert_eq!(c.smtp_port, None);
    assert!(c.use_tls);
}

#[test]
fn configuration_requires_host_user_and_password() {
    let mut vars = smtp_vars();
    vars.record("SMTP_PASSWORD".to_string(), Err(VarError::NotPresent));
    match EmailConfig::from_env(&vars) {
        Err(LettreError::Environment(EnvError::NotFound { key })) => {
            assert_eq!(key, "SMTP_PASSWORD")
        }
        other => panic!("unexpected {:?}", other.map(|_| ())),
    }
    let mut vars = smtp_vars();
    vars.record("SMTP_HOST".to_string(), Err(VarError::NotUnicode));
    assert!(matches!(
        EmailConfig::from_env(&vars),
        Err(LettreError::Environment(EnvError::InvalidUtf8 { .. }))
    ));
}

#[test]
fn transport_without_tls_is_always_made() {
    let config = EmailConfig::new("localhost".to_string(), "u".to_string(), "p".to_string())
        .with_tls(false)
        .with_port(2525);
    assert!(Lettre::init_with_config(config).is_ok());
}

#[test]
fn transport_from_environment() {
    let mut vars = smtp_vars();
    vars.set("SMTP_USE_TLS".to_string(), "false".to_string());
    assert!(Lettre::init(&vars).is_ok());
    assert!(matches!(
        Lettre::init(&Vars::new()),
        Err(LettreError::Environment(EnvError::NotFound { .. }))
    ));
}

#[test]
fn port_is_read_as_std_reads_a_u16() {
    let cases: [(&str, Option<u16>); 10] = [
        ("25", Some(25)),
        ("+465", Some(465)),
        ("0", Some(0)),
        ("00587", Some(587)),
        ("65535", Some(65535)),
        ("65536", None),
        ("", None),
        ("+", None),
        ("-25", None),
        ("2 5", None),
    ];
    for (text, expected) in cases {
        let mut vars = smtp_vars();
        vars.set("SMTP_PORT".to_string(), text.to_string());
        let c = EmailConfig::from_env(&vars).unwrap();
        assert_eq!(c.smtp_port, expected, "port text {text:?}");
        assert_eq!(text.parse::<u16>().ok(), expected, "std on {text:?}");
    }
    let mut vars = smtp_vars();
    vars.set("SMTP_PORT".to_string(), "٢٥".to_string());
    assert_eq!(EmailConfig::from_env(&vars).unwrap().smtp_port, None);
}

#[test]
fn tls_flag_is_read_as_std_reads_a_bool() {
    for (text, expected) in [("true", true), ("false", false), ("False", true), ("", true)] {
        let mut vars = smtp_vars();
        vars.set("SMTP_USE_TLS".to_string(), text.to_string());
        assert_eq!(EmailConfig::from_env(&vars).unwrap().use_tls, expected, "flag {text:?}");
    }
}

#[test]
fn transport_settings_follow_the_configuration() {
    let config = EmailConfig::new("mail.example.org".to_string(), "u".to_string(), "p".to_string())
        .with_tls(false);
    let relay = Lettre::init_with_config(config).unwrap();
    let text = format!("{:?}", relay.builder());
    assert!(text.contains("mail.example.org"), "{text}");
    assert!(text.contains("port: 25"), "{text}");
    assert!(text.contains("tls: None"), "{text}");

    let config = EmailConfig::new("mail.example.org".to_string(), "u".to_string(), "p".to_string())
        .with_tls(false)
        .with_port(2525);
    let relay = Lettre::init_with_config(config).unwrap();
    assert!(format!("{:?}", relay.builder()).contains("port: 2525"));
}

#[test]
fn build_keeps_every_part_in_order() {
    let message = EmailBuilder::new()
        .from("alice@example.com")
        .unwrap()
        .to("bob@example.com")
        .unwrap()
        .to("dan@example.com")
        .unwrap()
        .cc("carol@example.com")
        .unwrap()
        .cc("erin@example.com")
        .unwrap()
        .bcc("frank@example.com")
        .unwrap()
        .html_body("<b>x</b>")
        .build()
        .unwrap()
        .into_message();
    let text = String::from_utf8(message.formatted()).unwrap();
    assert!(text.contains("To: bob@example.com, dan@example.com"), "{text}");
    assert!(text.contains("Cc: carol@example.com, erin@example.com"), "{text}");
    assert!(text.contains("Subject: \r\n") || text.contains("Subject:\r\n"), "{text}");
    assert!(text.contains("Content-Type: text/html; charset=utf-8"), "{text}");
    assert!(!text.contains("Bcc"), "{text}");
    let env_to: Vec<String> = message.envelope().to().iter().map(|a| a.to_string()).collect();
    assert_eq!(
        env_to,
        vec!["bob@example.com", "dan@example.com", "carol@example.com", "erin@example.com", "frank@example.com"]
    );
    assert_eq!(message.envelope().from().map(|a| a.to_string()), Some("alice@example.com".to_string()));
}

#[test]
fn a_display_name_that_does_not_read_back_leaves_no_sender() {
    let r = EmailBuilder::new()
        .from_with_name("Al\u{0}ice", "alice@example.com")
        .unwrap()
        .to("bob@example.com")
        .unwrap()
        .build();
    assert!(matches!(r, Err(LettreError::MessageBuilder(MessageError::MissingFrom))));
}

#[test]
fn a_header_that_does_not_read_back_is_replaced() {
    let message = EmailBuilder::new()
        .from("alice@example.com")
        .unwrap()
        .to_with_name("x\u{0}y", "bob@example.com")
        .unwrap()
        .to("carol@example.com")
        .unwrap()
        .build()
        .unwrap()
        .into_message();
    let text = String::from_utf8(message.formatted()).unwrap();
    assert!(text.contains("To: carol@example.com\r\n"), "{text}");
    let env_to: Vec<String> = message.envelope().to().iter().map(|a| a.to_string()).collect();
    assert_eq!(env_to, vec!["carol@example.com"]);
}
