use inscribes::api::{
    InscribeBrc20Content, InscribeContent, InscribeContentSimple, InscriptionContentType,
    InscriptionFirstOwner, InscriptionTotal,
};

#[test]
fn records_hold_their_fields() {
    let content = InscribeContent {
        content: vec![1, 2],
        inscribe_num: 3,
        inscribe_id: "id".to_string(),
        timestamp: 4,
        address: "address".to_string(),
    };
    assert_eq!(content.content, vec![1, 2]);
    assert_eq!(content.inscribe_num, 3);
    assert_eq!(content.inscribe_id, "id");
    assert_eq!(content.timestamp, 4);
    assert_eq!(content.address, "address");
    let brc20 = InscribeBrc20Content {
        content: vec![],
        content_type: "text/plain".to_string(),
        inscribe_id: "id".to_string(),
        inscribe_num: 1,
        timestamp: 2,
        output_address: "out".to_string(),
        input_address: "in".to_string(),
        first_owner: "first".to_string(),
    };
    assert_eq!(brc20.first_owner, "first");
    assert_eq!(format!("{:?}", InscriptionTotal { total: 5 }), "InscriptionTotal { total: 5 }");
}

#[test]
fn records_compare_field_by_field() {
    let simple = |num: u64| InscribeContentSimple {
        content: vec![1],
        inscribe_num: num,
        inscribe_id: "id".to_string(),
        timestamp: 0,
    };
    assert_eq!(simple(1), simple(1));
    assert_ne!(simple(1), simple(2));
    assert!(simple(1) < simple(2));
    assert!(InscriptionTotal { total: 1 } < InscriptionTotal { total: 2 });
    assert_eq!(
        InscriptionFirstOwner { first_owner: "a".to_string() },
        InscriptionFirstOwner { first_owner: "a".to_string() }
    );
    assert!(
        InscriptionContentType { content_type: "a".to_string(), address: "z".to_string() }
            < InscriptionContentType { content_type: "b".to_string(), address: "a".to_string() }
    );
}
