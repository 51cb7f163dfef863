use std::rc::Rc;

use tide_sqlx::handle::{ConnectionWrapInner, ResourceKind};
use tide_sqlx::method::{classify, Method};

type Handle = ConnectionWrapInner<Box<String>, Box<String>>;

#[test]
fn only_get_and_head_are_read_only() {
    let all = [
        Method::Acl, Method::BaselineControl, Method::Bind, Method::Checkin, Method::Checkout,
        Method::Connect, Method::Copy, Method::Delete, Method::Get, Method::Head, Method::Label,
        Method::Link, Method::Lock, Method::Merge, Method::MkActivity, Method::MkCalendar,
        Method::MkCol, Method::MkRedirectRef, Method::MkWorkspace, Method::Move, Method::Options,
        Method::OrderPatch, Method::Patch, Method::Post, Method::Pri, Method::PropFind,
        Method::PropPatch, Method::Put, Method::Rebind, Method::Report, Method::Search,
        Method::Trace, Method::Unbind, Method::Uncheckout, Method::Unlink, Method::Unlock,
        Method::Update, Method::UpdateRedirectRef, Method::VersionControl,
    ];
    let mut plain = 0;
    for m in all {
        let expected = matches!(m, Method::Get | Method::Head);
        assert_eq!(m.is_read_only(), expected);
        let kind = classify(m);
        if expected {
            assert_eq!(kind, ResourceKind::Plain);
            plain += 1;
        } else {
            assert_eq!(kind, ResourceKind::Transaction);
        }
    }
    assert_eq!(plain, 2);
}

#[test]
fn handle_reports_its_kind() {
    let t: Handle = ConnectionWrapInner::Transacting(Box::new("tx".to_string()));
    let p: Handle = ConnectionWrapInner::Plain(Box::new("conn".to_string()));
    assert_eq!(t.kind(), ResourceKind::Transaction);
    assert_eq!(p.kind(), ResourceKind::Plain);
    assert!(t.is_transacting());
    assert!(!p.is_transacting());
    assert!(ResourceKind::Transaction.needs_commit());
    assert!(!ResourceKind::Plain.needs_commit());
}

#[test]
fn handle_names_its_variant() {
    let t: Handle = ConnectionWrapInner::Transacting(Box::new(String::new()));
    let p: Handle = ConnectionWrapInner::Plain(Box::new(String::new()));
    assert_eq!(t.variant_name(), "ConnectionWrapInner::Transacting");
    assert_eq!(p.variant_name(), "ConnectionWrapInner::Plain");
}

#[test]
fn into_transaction_keeps_only_transactions() {
    let t: Handle = ConnectionWrapInner::Transacting(Box::new("tx".to_string()));
    let p: Handle = ConnectionWrapInner::Plain(Box::new("conn".to_string()));
    assert_eq!(t.into_transaction().map(|b| *b), Some("tx".to_string()));
    assert_eq!(p.into_transaction(), None);
}

#[test]
fn both_variants_deref_to_the_connection() {
    let t: ConnectionWrapInner<Box<String>, Rc<String>> =
        ConnectionWrapInner::Transacting(Box::new("tx".to_string()));
    let p: ConnectionWrapInner<Box<String>, Rc<String>> =
        ConnectionWrapInner::Plain(Rc::new("conn".to_string()));
    assert_eq!(t.len(), 2);
    assert_eq!(&*p, "conn");
}

#[test]
fn writes_through_the_handle_apply_in_order() {
    let mut h: Handle = ConnectionWrapInner::Transacting(Box::new(String::new()));
    h.push_str("first;");
    h.push_str("second;");
    assert_eq!(h.as_str(), "first;second;");
    let mut p: Handle = ConnectionWrapInner::Plain(Box::new(String::new()));
    p.push('x');
    assert_eq!(&*p, "x");
}
