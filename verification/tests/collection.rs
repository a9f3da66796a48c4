use iri_string::types::IriStr;
use xml_documents::{Documents, DocumentsError};

fn iri(text: &str) -> &IriStr {
    IriStr::new(text).unwrap()
}

fn element_names(documents: &Documents, parent: xot::Node) -> Vec<String> {
    let xot = documents.xot();
    xot.children(parent)
        .filter(|child| xot.is_element(*child))
        .map(|child| xot.local_name_str(xot.node_name(child).unwrap()).to_string())
        .collect()
}

#[test]
fn load_under_uri_then_reload_keeps_first_document() {
    let mut documents = Documents::new();
    let h1 = documents.add_string(iri("http://x/a"), "<r><c/></r>").unwrap();
    let root = documents.document_node(h1).unwrap();
    let r = documents.xot().document_element(root).unwrap();
    assert_eq!(element_names(&documents, root), vec!["r".to_string()]);
    assert_eq!(element_names(&documents, r), vec!["c".to_string()]);
    assert_eq!(documents.xot().children(r).count(), 1);

    let again = documents.add_string(iri("http://x/a"), "<different/>").unwrap();
    assert_eq!(again, h1);
    assert_eq!(documents.document_node(h1), Some(root));
    assert_eq!(documents.xot().to_string(root).unwrap(), "<r><c/></r>");
}

#[test]
fn anonymous_loads_of_equal_text_are_distinct_documents() {
    let mut documents = Documents::new();
    let h1 = documents.add_string_without_uri("<a/>").unwrap();
    let h2 = documents.add_string_without_uri("<a/>").unwrap();
    assert_ne!(h1, h2);
    let n1 = documents.document_node(h1).unwrap();
    let n2 = documents.document_node(h2).unwrap();
    assert_ne!(n1, n2);
    assert_eq!(documents.xot().to_string(n1).unwrap(), "<a/>");
    assert_eq!(documents.xot().to_string(n2).unwrap(), "<a/>");
    assert!(documents.xot().deep_equal(n1, n2));
}

#[test]
fn anonymous_documents_own_their_trees() {
    let mut documents = Documents::new();
    let h1 = documents.add_string_without_uri("<a/>").unwrap();
    let h2 = documents.add_string_without_uri("<a/>").unwrap();
    let n1 = documents.document_node(h1).unwrap();
    let n2 = documents.document_node(h2).unwrap();
    let a1 = documents.xot().document_element(n1).unwrap();
    let name = documents.xot_mut().add_name("extra");
    let extra = documents.xot_mut().new_element(name);
    documents.xot_mut().append(a1, extra).unwrap();
    assert_eq!(documents.xot().to_string(n1).unwrap(), "<a><extra/></a>");
    assert_eq!(documents.xot().to_string(n2).unwrap(), "<a/>");
}

#[test]
fn new_collection_is_empty() {
    let documents = Documents::new();
    assert!(documents.documents().borrow().is_empty());
    assert_eq!(documents.handle_by_uri(iri("http://x/a")), None);
}

#[test]
fn default_collection_is_empty() {
    let documents = Documents::default();
    assert_eq!(documents.documents().borrow().len(), 0);
    assert_eq!(documents.handle_by_uri(iri("urn:a")), None);
}

#[test]
fn reload_with_different_text_parses_nothing() {
    let mut documents = Documents::new();
    let h1 = documents.add_string(iri("http://x/a"), "<r/>").unwrap();
    // Text that would not even parse is not looked at once the URI is bound.
    let again = documents.add_string(iri("http://x/a"), "<broken").unwrap();
    assert_eq!(again, h1);
    assert_eq!(documents.documents().borrow().len(), 1);
}

#[test]
fn different_uris_get_different_documents() {
    let mut documents = Documents::new();
    let a = documents.add_string(iri("http://x/a"), "<a/>").unwrap();
    let b = documents.add_string(iri("http://x/b"), "<b/>").unwrap();
    assert_ne!(a, b);
    let root_a = documents.document_node(a).unwrap();
    let root_b = documents.document_node(b).unwrap();
    assert_eq!(documents.xot().to_string(root_a).unwrap(), "<a/>");
    assert_eq!(documents.xot().to_string(root_b).unwrap(), "<b/>");
    assert_eq!(documents.handle_by_uri(iri("http://x/a")), Some(a));
    assert_eq!(documents.handle_by_uri(iri("http://x/b")), Some(b));
    assert_eq!(documents.handle_by_uri(iri("http://x/c")), None);
}

#[test]
fn issued_handles_keep_resolving() {
    let mut documents = Documents::new();
    let mut issued = Vec::new();
    for text in ["<a/>", "<b><c/></b>", "<d>text</d>"] {
        let handle = documents.add_string_without_uri(text).unwrap();
        let root = documents.document_node(handle).unwrap();
        issued.push((handle, root, text));
    }
    let named = documents.add_string(iri("http://x/named"), "<n/>").unwrap();
    let named_root = documents.document_node(named).unwrap();
    assert!(documents.add_string_without_uri("<unclosed>").is_err());
    for (handle, root, text) in issued {
        assert_eq!(documents.document_node(handle), Some(root));
        assert_eq!(documents.xot().to_string(root).unwrap(), text);
    }
    assert_eq!(documents.document_node(named), Some(named_root));
}

#[test]
fn foreign_handle_is_absent() {
    let mut ours = Documents::new();
    let mut theirs = Documents::new();
    let foreign = theirs.add_string_without_uri("<a/>").unwrap();
    assert_eq!(ours.document_node(foreign), None);
    let own = ours.add_string_without_uri("<b/>").unwrap();
    assert_eq!(ours.document_node(foreign), None);
    assert!(ours.document_node(own).is_some());
    assert_eq!(theirs.document_node(own), None);
}

#[test]
fn failed_load_is_not_remembered() {
    let mut documents = Documents::new();
    let failed = documents.add_string(iri("http://x/a"), "<r><c></r>");
    assert!(matches!(failed, Err(DocumentsError::Parse(_))));
    assert_eq!(documents.handle_by_uri(iri("http://x/a")), None);
    assert!(documents.documents().borrow().is_empty());

    let handle = documents.add_string(iri("http://x/a"), "<good/>").unwrap();
    assert_eq!(documents.handle_by_uri(iri("http://x/a")), Some(handle));
    let root = documents.document_node(handle).unwrap();
    assert_eq!(documents.xot().to_string(root).unwrap(), "<good/>");
    assert_eq!(documents.documents().borrow().len(), 1);
}

#[test]
fn failed_anonymous_load_registers_nothing() {
    let mut documents = Documents::new();
    assert!(matches!(
        documents.add_string_without_uri("no markup at all"),
        Err(DocumentsError::Parse(_))
    ));
    assert!(matches!(
        documents.add_string_without_uri(""),
        Err(DocumentsError::Parse(xot::ParseError::NoElementAtTopLevel(0)))
    ));
    assert!(matches!(
        documents.add_string_without_uri("<a>"),
        Err(DocumentsError::Parse(xot::ParseError::UnclosedTag(_)))
    ));
    assert!(matches!(
        documents.add_string_without_uri("<a/><b/>"),
        Err(DocumentsError::Parse(_))
    ));
    assert!(documents.documents().borrow().is_empty());
}

#[test]
fn anonymous_documents_have_no_uri() {
    let mut documents = Documents::new();
    let anonymous = documents.add_string_without_uri("<a/>").unwrap();
    let named = documents.add_string(iri("http://x/a"), "<a/>").unwrap();
    assert_ne!(anonymous, named);
    assert_eq!(documents.handle_by_uri(iri("http://x/a")), Some(named));
    let registry = documents.documents().borrow();
    assert!(registry.get_by_handle(anonymous).is_some());
    let root = registry.get_node_by_handle(anonymous).unwrap();
    assert_eq!(registry.get_uri_by_document_node(root), None);
}

#[test]
fn registry_sees_what_the_collection_loads() {
    let mut documents = Documents::new();
    let handle = documents.add_string(iri("http://x/a"), "<a/>").unwrap();
    let root = documents.document_node(handle).unwrap();
    let shared = documents.documents().clone();
    assert_eq!(shared.borrow().get_node_by_uri(iri("http://x/a")), Some(root));
    assert_eq!(shared.borrow().get_node_by_handle(handle), Some(root));
    assert_eq!(shared.borrow().len(), 1);
}

#[test]
fn arena_can_be_extended_between_loads() {
    let mut documents = Documents::new();
    let first = documents.add_string(iri("http://x/a"), "<a/>").unwrap();
    let root = documents.document_node(first).unwrap();
    let a = documents.xot().document_element(root).unwrap();
    let text = documents.xot_mut().new_text("hello");
    documents.xot_mut().append(a, text).unwrap();
    let second = documents.add_string_without_uri("<b/>").unwrap();
    assert_ne!(first, second);
    assert_eq!(documents.document_node(first), Some(root));
    assert_eq!(documents.xot().to_string(root).unwrap(), "<a>hello</a>");
    assert_eq!(documents.add_string(iri("http://x/a"), "<z/>").unwrap(), first);
}
