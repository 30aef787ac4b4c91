use lattice_control::ident::IdentifierKind;
use lattice_control::CtlError;

#[test]
fn test_check_identifier() {
    assert!(IdentifierKind::is_host_id("").is_err());
    assert!(IdentifierKind::is_host_id(" ").is_err());
    let host_id = IdentifierKind::is_host_id("             ");
    assert!(host_id.is_err(), "parsing host id should have failed");
    assert!(host_id.unwrap_err().message().contains("Host ID cannot be empty"));
    let provider_ref = IdentifierKind::is_provider_ref("");
    assert!(provider_ref.is_err(), "parsing provider ref should have failed");
    assert!(provider_ref
        .unwrap_err()
        .message()
        .contains("Provider OCI reference cannot be empty"));
    assert!(IdentifierKind::is_host_id("host_id").is_ok());
    let component_id = IdentifierKind::is_component_id("            iambatman  ").unwrap();
    assert_eq!(component_id, "iambatman");
}

#[test]
fn whitespace_only_fails_every_kind() {
    assert_eq!(
        IdentifierKind::is_host_id("\t \n"),
        Err(CtlError::InvalidIdentifier(IdentifierKind::HostId))
    );
    assert_eq!(
        IdentifierKind::is_component_id(""),
        Err(CtlError::InvalidIdentifier(IdentifierKind::ComponentId))
    );
    assert_eq!(
        IdentifierKind::is_component_ref("   "),
        Err(CtlError::InvalidIdentifier(IdentifierKind::ComponentRef))
    );
    assert_eq!(
        IdentifierKind::is_provider_id(" "),
        Err(CtlError::InvalidIdentifier(IdentifierKind::ProviderId))
    );
    assert_eq!(
        IdentifierKind::is_provider_ref("\u{a0}\u{2003}"),
        Err(CtlError::InvalidIdentifier(IdentifierKind::ProviderRef))
    );
    assert_eq!(
        IdentifierKind::is_link_name("\r\n"),
        Err(CtlError::InvalidIdentifier(IdentifierKind::LinkName))
    );
}

#[test]
fn validation_trims_and_preserves_interior() {
    assert_eq!(IdentifierKind::is_link_name("  a b.c  ").unwrap(), "a b.c");
    assert_eq!(IdentifierKind::is_provider_id("x").unwrap(), "x");
    assert_eq!(
        IdentifierKind::is_component_ref(" ghcr.io/acme/echo:0.1.0 ").unwrap(),
        "ghcr.io/acme/echo:0.1.0"
    );
}

#[test]
fn error_messages_name_the_kind() {
    assert_eq!(
        IdentifierKind::is_component_id("  ").unwrap_err().message(),
        "Component ID cannot be empty"
    );
    assert_eq!(
        IdentifierKind::is_link_name("").unwrap_err().message(),
        "Link Name cannot be empty"
    );
}
