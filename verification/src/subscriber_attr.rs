use vstd::prelude::*;

verus! {

/// A literal inside an attribute, as far as the url lookup looks at it.
#[derive(Clone, Debug)]
pub enum AttrLit {
    /// A string literal, with its value.
    Str(String),
    /// Any other literal.
    Other,
}

/// One item inside the brackets of a list attribute such as `#[graphql_ws(url = "...")]`.
#[derive(Clone, Debug)]
pub enum NestedMeta {
    /// A `path = literal` item. `ident` is the path when the path is a single plain
    /// identifier, and `None` for any other path.
    NameValue { ident: Option<String>, lit: AttrLit },
    /// Any other item.
    Other,
}

/// The content of an attribute.
#[derive(Clone, Debug)]
pub enum AttrMeta {
    /// `name(item, item, ...)`.
    List(Vec<NestedMeta>),
    /// A bare path or `name = literal`.
    Other,
}

/// Why no url could be read from a type's attributes.
#[derive(Clone, Copy, Debug, PartialEq, Eq, Structural)]
pub enum UrlAttrError {
    /// No attribute is named `graphql_ws`.
    AttributeNotFound,
    /// The `graphql_ws` attribute is not a list.
    NotAList,
    /// No item of the list is `url = "..."`.
    UrlNotFound,
}

/// `ident` is the single plain identifier `name`.
pub open spec fn is_ident(ident: Option<String>, name: Seq<char>) -> bool {
    ident matches Some(s) && s@ == name
}

/// The item is `url = "<string>"`.
pub open spec fn is_url_item(item: NestedMeta) -> bool {
    item matches NestedMeta::NameValue { ident, lit } && is_ident(ident, "url"@) && lit is Str
}

/// The string of a `name = "<string>"` item.
pub open spec fn item_text(item: NestedMeta) -> Seq<char> {
    match item {
        NestedMeta::NameValue { lit: AttrLit::Str(s), .. } => s@,
        _ => Seq::<char>::empty(),
    }
}

/// `r` is what looking up the url among `items` gives: the string of the first
/// `url = "<string>"` item, or `UrlNotFound` when there is none.
pub open spec fn is_url_lookup(items: Seq<NestedMeta>, r: Result<String, UrlAttrError>) -> bool {
    match r {
        Ok(url) => exists|i: int|
            0 <= i < items.len() && is_url_item(#[trigger] items[i]) && item_text(items[i]) == url@
                && forall|j: int| 0 <= j < i ==> !is_url_item(#[trigger] items[j]),
        Err(e) => e == UrlAttrError::UrlNotFound && forall|j: int|
            0 <= j < items.len() ==> !is_url_item(#[trigger] items[j]),
    }
}

/// The text of the error, as the derive reports it.
pub open spec fn url_attr_error_text(e: UrlAttrError) -> Seq<char> {
    match e {
        UrlAttrError::AttributeNotFound => "helper attribute for graphql_ws not found"@,
        UrlAttrError::NotAList => "graphql_ws attribute must be a list"@,
        UrlAttrError::UrlNotFound => "url for graphql_ws subscriber not found"@,
    }
}

impl UrlAttrError {
    /// The text of the error.
    pub fn to_display_string(&self) -> (r: String)
        ensures
            r@ == url_attr_error_text(*self),
    {
        match self {
            UrlAttrError::AttributeNotFound => String::from_str("helper attribute for graphql_ws not found"),
            UrlAttrError::NotAList => String::from_str("graphql_ws attribute must be a list"),
            UrlAttrError::UrlNotFound => String::from_str("url for graphql_ws subscriber not found"),
        }
    }
}

/// The position of the first attribute named `graphql_ws`, given the path of each
/// attribute of a type (`Some(identifier)` for a plain identifier, `None` otherwise).
pub fn graphql_ws_attribute(idents: &Vec<Option<String>>) -> (r: Result<usize, UrlAttrError>)
    ensures
        match r {
            Ok(i) => i < idents@.len() && is_ident(idents@[i as int], "graphql_ws"@) && forall|j: int|
                0 <= j < i ==> !is_ident(#[trigger] idents@[j], "graphql_ws"@),
            Err(e) => e == UrlAttrError::AttributeNotFound && forall|j: int|
                0 <= j < idents@.len() ==> !is_ident(#[trigger] idents@[j], "graphql_ws"@),
        },
{
    let name = String::from_str("graphql_ws");
    let mut i: usize = 0;
    while i < idents.len()
        invariant
            i <= idents@.len(),
            name@ == "graphql_ws"@,
            forall|j: int| 0 <= j < i ==> !is_ident(#[trigger] idents@[j], "graphql_ws"@),
        decreases idents@.len() - i,
    {
        if let Some(s) = &idents[i] {
            if *s == name {
                return Ok(i);
            }
        }
        i = i + 1;
    }
    Err(UrlAttrError::AttributeNotFound)
}

/// The url that a `#[graphql_ws(url = "...")]` attribute gives: the string of the first
/// `url = "<string>"` item of the list.
pub fn subscriber_url(meta: &AttrMeta) -> (r: Result<String, UrlAttrError>)
    ensures
        *meta is Other ==> r == Err::<String, UrlAttrError>(UrlAttrError::NotAList),
        *meta matches AttrMeta::List(items) ==> is_url_lookup(items@, r),
{
    match meta {
        AttrMeta::Other => Err(UrlAttrError::NotAList),
        AttrMeta::List(items) => {
            let name = String::from_str("url");
            let mut i: usize = 0;
            while i < items.len()
                invariant
                    i <= items@.len(),
                    name@ == "url"@,
                    *meta == AttrMeta::List(*items),
                    forall|j: int| 0 <= j < i ==> !is_url_item(#[trigger] items@[j]),
                decreases items@.len() - i,
            {
                if let NestedMeta::NameValue { ident: Some(s), lit: AttrLit::Str(v) } = &items[i] {
                    if *s == name {
                        let url = v.clone();
                        assert(is_url_item(items@[i as int]));
                        assert(item_text(items@[i as int]) == url@);
                        return Ok(url);
                    }
                }
                i = i + 1;
            }
            Err(UrlAttrError::UrlNotFound)
        },
    }
}

/// An item that is not `url = "<string>"` written out: anything but a name-value item,
/// or one whose path is not the plain identifier `url`, or whose literal is not a string.
pub open spec fn is_not_url_shaped(item: NestedMeta) -> bool {
    match item {
        NestedMeta::Other => true,
        NestedMeta::NameValue { ident, lit } => match (ident, lit) {
            (Some(name), AttrLit::Str(_)) => name@ != "url"@,
            _ => true,
        },
    }
}

/// The first `url = "<string>"` item decides the url, whatever follows it.
pub proof fn lemma_first_url_item_wins(
    url_name: String,
    text: String,
    rest: Seq<NestedMeta>,
    r: Result<String, UrlAttrError>,
)
    requires
        url_name@ == "url"@,
        is_url_lookup(
            seq![NestedMeta::NameValue { ident: Some(url_name), lit: AttrLit::Str(text) }] + rest,
            r,
        ),
    ensures
        r matches Ok(u) && u@ == text@,
{
    let items = seq![NestedMeta::NameValue { ident: Some(url_name), lit: AttrLit::Str(text) }]
        + rest;
    assert(is_url_item(items[0]));
    match r {
        Ok(u) => {
            let i = choose|i: int|
                0 <= i < items.len() && is_url_item(#[trigger] items[i]) && item_text(items[i])
                    == u@ && forall|j: int| 0 <= j < i ==> !is_url_item(#[trigger] items[j]);
            assert(i == 0);
        },
        Err(_) => {},
    }
}

/// An item that is not `url = "<string>"` is passed over: putting it in front of the
/// list does not change what the lookup gives.
pub proof fn lemma_other_items_are_skipped(
    item: NestedMeta,
    rest: Seq<NestedMeta>,
    r: Result<String, UrlAttrError>,
)
    requires
        is_not_url_shaped(item),
    ensures
        is_url_lookup(seq![item] + rest, r) <==> is_url_lookup(rest, r),
{
    let items = seq![item] + rest;
    assert(!is_url_item(items[0]));
    assert forall|j: int| 0 <= j < rest.len() implies #[trigger] rest[j] == items[j + 1] by {}
    match r {
        Ok(u) => {
            if is_url_lookup(items, r) {
                let i = choose|i: int|
                    0 <= i < items.len() && is_url_item(#[trigger] items[i]) && item_text(
                        items[i],
                    ) == u@ && forall|j: int| 0 <= j < i ==> !is_url_item(#[trigger] items[j]);
                assert(i >= 1);
                assert(rest[i - 1] == items[i]);
                assert forall|j: int| 0 <= j < i - 1 implies !is_url_item(#[trigger] rest[j]) by {
                    assert(rest[j] == items[j + 1]);
                }
                assert(is_url_lookup(rest, r));
            }
            if is_url_lookup(rest, r) {
                let i = choose|i: int|
                    0 <= i < rest.len() && is_url_item(#[trigger] rest[i]) && item_text(rest[i])
                        == u@ && forall|j: int| 0 <= j < i ==> !is_url_item(#[trigger] rest[j]);
                assert(items[i + 1] == rest[i]);
                assert forall|j: int| 0 <= j < i + 1 implies !is_url_item(#[trigger] items[j]) by {
                    if j > 0 {
                        assert(items[j] == rest[j - 1]);
                    }
                }
                assert(is_url_lookup(items, r));
            }
        },
        Err(e) => {
            if is_url_lookup(rest, r) {
                assert forall|j: int| 0 <= j < items.len() implies !is_url_item(#[trigger] items[j]) by {
                    if j > 0 {
                        assert(items[j] == rest[j - 1]);
                    }
                }
            }
            if is_url_lookup(items, r) {
                assert forall|j: int| 0 <= j < rest.len() implies !is_url_item(#[trigger] rest[j]) by {
                    assert(rest[j] == items[j + 1]);
                }
            }
        },
    }
}

/// The lookup gives one answer: two results that both fit the same list are the same url
/// or the same error.
pub proof fn lemma_url_lookup_is_determined(
    items: Seq<NestedMeta>,
    r1: Result<String, UrlAttrError>,
    r2: Result<String, UrlAttrError>,
)
    requires
        is_url_lookup(items, r1),
        is_url_lookup(items, r2),
    ensures
        match (r1, r2) {
            (Ok(u1), Ok(u2)) => u1@ == u2@,
            (Err(e1), Err(e2)) => e1 == e2,
            _ => false,
        },
{
    match (r1, r2) {
        (Ok(u1), Ok(u2)) => {
            let i1 = choose|i: int|
                0 <= i < items.len() && is_url_item(#[trigger] items[i]) && item_text(items[i])
                    == u1@ && forall|j: int| 0 <= j < i ==> !is_url_item(#[trigger] items[j]);
            let i2 = choose|i: int|
                0 <= i < items.len() && is_url_item(#[trigger] items[i]) && item_text(items[i])
                    == u2@ && forall|j: int| 0 <= j < i ==> !is_url_item(#[trigger] items[j]);
            if i1 < i2 {
                assert(!is_url_item(items[i1]));
            } else if i2 < i1 {
                assert(!is_url_item(items[i2]));
            }
        },
        (Ok(u1), Err(_)) => {
            let i1 = choose|i: int|
                0 <= i < items.len() && is_url_item(#[trigger] items[i]) && item_text(items[i])
                    == u1@ && forall|j: int| 0 <= j < i ==> !is_url_item(#[trigger] items[j]);
        },
        (Err(_), Ok(u2)) => {
            let i2 = choose|i: int|
                0 <= i < items.len() && is_url_item(#[trigger] items[i]) && item_text(items[i])
                    == u2@ && forall|j: int| 0 <= j < i ==> !is_url_item(#[trigger] items[j]);
        },
        _ => {},
    }
}

} // verus!
