use tokio_graphql_ws::subscriber_attr::{graphql_ws_attribute, subscriber_url};
use tokio_graphql_ws::{AttrLit, AttrMeta, NestedMeta, UrlAttrError};

fn nv(ident: Option<&str>, lit: AttrLit) -> NestedMeta {
    NestedMeta::NameValue { ident: ident.map(|s| s.to_owned()), lit }
}

#[test]
fn finds_first_graphql_ws_attribute() {
    let idents = vec![
        Some("derive".to_owned()),
        None,
        Some("graphql_ws".to_owned()),
        Some("graphql_ws".to_owned()),
    ];
    assert_eq!(graphql_ws_attribute(&idents), Ok(2));
}

#[test]
fn missing_attribute_is_reported() {
    let idents = vec![Some("derive".to_owned()), None];
    let e = graphql_ws_attribute(&idents).unwrap_err();
    assert_eq!(e, UrlAttrError::AttributeNotFound);
    assert_eq!(e.to_display_string(), "helper attribute for graphql_ws not found");
}

#[test]
fn url_is_first_string_url_item() {
    let meta = AttrMeta::List(vec![
        NestedMeta::Other,
        nv(Some("name"), AttrLit::Str("x".to_owned())),
        nv(Some("url"), AttrLit::Other),
        nv(Some("url"), AttrLit::Str("self.url.clone()".to_owned())),
        nv(Some("url"), AttrLit::Str("second".to_owned())),
    ]);
    assert_eq!(subscriber_url(&meta), Ok("self.url.clone()".to_owned()));
}

#[test]
fn non_list_attribute_is_refused() {
    let e = subscriber_url(&AttrMeta::Other).unwrap_err();
    assert_eq!(e, UrlAttrError::NotAList);
    assert_eq!(e.to_display_string(), "graphql_ws attribute must be a list");
}

#[test]
fn list_without_url_is_refused() {
    let meta = AttrMeta::List(vec![nv(None, AttrLit::Str("u".to_owned()))]);
    let e = subscriber_url(&meta).unwrap_err();
    assert_eq!(e, UrlAttrError::UrlNotFound);
    assert_eq!(e.to_display_string(), "url for graphql_ws subscriber not found");
}
