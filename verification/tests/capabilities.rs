use smtp_core::capability::{check_capabilities, Capability, EhloData};

fn cap(keyword: &str) -> Capability {
    Capability::new(keyword.to_owned())
}

fn server(advertised: &[&str]) -> EhloData {
    let mut ehlo = EhloData::new("mail.example.com".to_owned());
    for keyword in advertised {
        ehlo.insert_capability(cap(keyword), vec![]);
    }
    ehlo
}

#[test]
fn ehlo_data_basics() {
    let ehlo = server(&["STARTTLS", "AUTH"]);
    assert_eq!(ehlo.domain(), "mail.example.com");
    assert!(ehlo.has_capability(&cap("STARTTLS")));
    assert!(ehlo.has_capability(&cap("AUTH")));
    assert!(!ehlo.has_capability(&cap("SMTPUTF8")));
}

#[test]
fn readvertising_replaces_the_entry() {
    let mut ehlo = EhloData::new("example.org".to_owned());
    ehlo.insert_capability(cap("AUTH"), vec!["PLAIN".to_owned()]);
    ehlo.insert_capability(cap("AUTH"), vec!["PLAIN".to_owned(), "LOGIN".to_owned()]);
    let params = ehlo.capability_params(&cap("AUTH")).expect("AUTH advertised");
    assert_eq!(params, &vec!["PLAIN".to_owned(), "LOGIN".to_owned()]);
    assert!(ehlo.capability_params(&cap("SIZE")).is_none());
}

#[test]
fn missing_set_preserves_requirement_order() {
    let ehlo = server(&["PIPELINING", "AUTH"]);
    let required = vec![cap("STARTTLS"), cap("AUTH"), cap("SMTPUTF8"), cap("SIZE")];
    let missing = check_capabilities(&required, &ehlo).expect_err("capabilities are missing");
    let names: Vec<String> = missing
        .into_capabilities()
        .iter()
        .map(|c| c.as_str().to_owned())
        .collect();
    assert_eq!(names, vec!["STARTTLS", "SMTPUTF8", "SIZE"]);
}

#[test]
fn all_required_advertised_means_no_error() {
    let ehlo = server(&["STARTTLS", "AUTH", "SIZE"]);
    let required = vec![cap("AUTH"), cap("STARTTLS")];
    assert!(check_capabilities(&required, &ehlo).is_ok());
}

#[test]
fn no_requirements_means_no_error() {
    let ehlo = server(&[]);
    assert!(check_capabilities(&vec![], &ehlo).is_ok());
}

#[test]
fn nothing_advertised_reports_everything() {
    let ehlo = server(&[]);
    let required = vec![cap("STARTTLS"), cap("AUTH")];
    let missing = check_capabilities(&required, &ehlo).expect_err("nothing is advertised");
    assert_eq!(missing.capabilities().len(), 2);
    assert_eq!(missing.capabilities()[0].as_str(), "STARTTLS");
    assert_eq!(missing.capabilities()[1].as_str(), "AUTH");
}

#[test]
fn capability_accessors() {
    let c = cap("STARTTLS");
    assert_eq!(c.as_str(), "STARTTLS");
    assert!(c.same_keyword(&cap("STARTTLS")));
    assert!(!c.same_keyword(&cap("AUTH")));
    assert_eq!(c.clone(), c);
}
