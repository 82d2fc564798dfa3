use smtp_test::contact::Contact;
use smtp_test::email::Email;

fn contact(name: &str, address: &str) -> Contact {
    Contact {
        name: name.to_string(),
        email: Email::parse(address.to_string()).unwrap(),
    }
}

#[test]
fn contact_renders_as_name_and_bracketed_address() {
    assert_eq!(
        contact("Alice", "alice@example.com").render(),
        "Alice <alice@example.com>"
    );
    assert_eq!(
        contact("Your name", "youremail@hotmail.com").render(),
        "Your name <youremail@hotmail.com>"
    );
}

#[test]
fn render_is_name_space_bracket_address_bracket() {
    for name in ["", "B", "Bob Builder", "Ünï Çødé", "tab\there"] {
        for address in ["a@b.c", "bob@example.com", "x.y+z@sub.example.org"] {
            assert_eq!(
                contact(name, address).render(),
                format!("{name} <{address}>")
            );
        }
    }
}

#[test]
fn render_does_not_escape_the_name() {
    assert_eq!(
        contact("Doe, \"Jo\" <x>", "jo@example.com").render(),
        "Doe, \"Jo\" <x> <jo@example.com>"
    );
}

#[test]
fn render_of_an_empty_name_keeps_the_separator() {
    assert_eq!(contact("", "a@b.c").render(), " <a@b.c>");
}

#[test]
fn cloned_contact_has_the_same_fields() {
    let carol = contact("Carol", "carol@example.com");
    let copy = carol.clone();
    assert_eq!(copy.name, carol.name);
    assert_eq!(copy.email.as_str(), carol.email.as_str());
    assert_eq!(copy.render(), carol.render());
}
