use broker_gateway::order::{
    find_field, side_is_sell, Field, FieldName, FieldValue, InputFault, Number, Payload,
    SubmitOrderInput,
};

fn text(name: &str, value: &str) -> Field {
    Field { name: name.to_string(), value: FieldValue::Text(value.to_string()) }
}

fn whole(name: &str, value: i64) -> Field {
    Field {
        name: name.to_string(),
        value: FieldValue::Number(Number { int: Some(value), bits: (value as f64).to_bits() }),
    }
}

fn float(name: &str, value: f64) -> Field {
    Field { name: name.to_string(), value: FieldValue::Number(Number { int: None, bits: value.to_bits() }) }
}

fn other(name: &str, value: FieldValue) -> Field {
    Field { name: name.to_string(), value }
}

fn decode(fields: Vec<Field>) -> Result<SubmitOrderInput, InputFault> {
    SubmitOrderInput::decode(&Payload::Object(fields))
}

#[test]
fn decodes_an_order_with_every_field() {
    let order = decode(vec![
        text("symbol", "AAPL"),
        text("side", "SELL"),
        whole("qty", 4),
        float("price", 150.0),
        text("strategy_id", "momentum"),
    ]);
    assert_eq!(
        order,
        Ok(SubmitOrderInput {
            symbol: "AAPL".to_string(),
            side: "SELL".to_string(),
            qty: 4,
            price_bits: Some(150.0f64.to_bits()),
            strategy_id: Some("momentum".to_string()),
        })
    );
}

#[test]
fn decodes_an_order_without_the_optional_fields() {
    let order = decode(vec![whole("qty", -7), text("side", "buy"), text("symbol", "msft")]);
    assert_eq!(
        order,
        Ok(SubmitOrderInput {
            symbol: "msft".to_string(),
            side: "buy".to_string(),
            qty: -7,
            price_bits: None,
            strategy_id: None,
        })
    );
}

#[test]
fn null_stands_for_an_absent_optional_field() {
    let order = decode(vec![
        text("symbol", "AAPL"),
        text("side", "BUY"),
        whole("qty", 1),
        other("price", FieldValue::Null),
        other("strategy_id", FieldValue::Null),
    ])
    .expect("an order");
    assert_eq!(order.price_bits, None);
    assert_eq!(order.strategy_id, None);
}

#[test]
fn an_integer_price_is_taken_by_its_bits() {
    let order = decode(vec![text("symbol", "AAPL"), text("side", "BUY"), whole("qty", 1), whole("price", 150)])
        .expect("an order");
    assert_eq!(order.price_bits, Some(150.0f64.to_bits()));
}

#[test]
fn fields_of_other_names_are_passed_over() {
    let order = decode(vec![
        other("note", FieldValue::Nested),
        text("symbol", "AAPL"),
        other("urgent", FieldValue::Bool(true)),
        text("side", "BUY"),
        whole("qty", 1),
        text("Symbol", "MSFT"),
    ])
    .expect("an order");
    assert_eq!(order.symbol, "AAPL");
}

#[test]
fn the_last_field_of_a_name_counts() {
    let fields = vec![text("symbol", "AAPL"), text("side", "BUY"), whole("qty", 1), text("symbol", "MSFT"), whole("qty", 2)];
    assert_eq!(find_field(&fields, "symbol"), Some(&FieldValue::Text("MSFT".to_string())));
    assert_eq!(find_field(&fields, "side"), Some(&FieldValue::Text("BUY".to_string())));
    assert_eq!(find_field(&fields, "price"), None);
    let order = decode(fields).expect("an order");
    assert_eq!(order.symbol, "MSFT");
    assert_eq!(order.qty, 2);
}

#[test]
fn find_field_on_no_fields() {
    assert_eq!(find_field(&Vec::new(), "symbol"), None);
}

#[test]
fn input_that_is_no_object_is_rejected() {
    assert_eq!(SubmitOrderInput::decode(&Payload::Other), Err(InputFault::NotAnObject));
}

#[test]
fn missing_required_fields_are_reported() {
    assert_eq!(decode(vec![]), Err(InputFault::MissingField(FieldName::Symbol)));
    assert_eq!(
        decode(vec![text("side", "BUY"), whole("qty", 1)]),
        Err(InputFault::MissingField(FieldName::Symbol))
    );
    assert_eq!(
        decode(vec![text("symbol", "AAPL"), whole("qty", 1)]),
        Err(InputFault::MissingField(FieldName::Side))
    );
    assert_eq!(
        decode(vec![text("symbol", "AAPL"), text("side", "BUY")]),
        Err(InputFault::MissingField(FieldName::Qty))
    );
}

#[test]
fn mistyped_fields_are_reported() {
    assert_eq!(
        decode(vec![whole("symbol", 5), text("side", "BUY"), whole("qty", 1)]),
        Err(InputFault::WrongType(FieldName::Symbol))
    );
    assert_eq!(
        decode(vec![other("symbol", FieldValue::Null), text("side", "BUY"), whole("qty", 1)]),
        Err(InputFault::WrongType(FieldName::Symbol))
    );
    assert_eq!(
        decode(vec![text("symbol", "AAPL"), other("side", FieldValue::Bool(true)), whole("qty", 1)]),
        Err(InputFault::WrongType(FieldName::Side))
    );
    assert_eq!(
        decode(vec![text("symbol", "AAPL"), text("side", "BUY"), text("qty", "10")]),
        Err(InputFault::WrongType(FieldName::Qty))
    );
    assert_eq!(
        decode(vec![text("symbol", "AAPL"), text("side", "BUY"), float("qty", 10.5)]),
        Err(InputFault::WrongType(FieldName::Qty))
    );
    assert_eq!(
        decode(vec![text("symbol", "AAPL"), text("side", "BUY"), other("qty", FieldValue::Null)]),
        Err(InputFault::WrongType(FieldName::Qty))
    );
    assert_eq!(
        decode(vec![text("symbol", "AAPL"), text("side", "BUY"), whole("qty", 1), text("price", "1")]),
        Err(InputFault::WrongType(FieldName::Price))
    );
    assert_eq!(
        decode(vec![
            text("symbol", "AAPL"),
            text("side", "BUY"),
            whole("qty", 1),
            other("strategy_id", FieldValue::Nested),
        ]),
        Err(InputFault::WrongType(FieldName::StrategyId))
    );
}

#[test]
fn an_empty_symbol_is_rejected() {
    assert_eq!(
        decode(vec![text("symbol", ""), text("side", "BUY"), whole("qty", 1)]),
        Err(InputFault::EmptySymbol)
    );
}

#[test]
fn a_side_that_is_neither_buy_nor_sell_is_rejected() {
    for side in ["HOLD", "", "B", "BUYS", "SEL", "SELLS", "buy ", "\u{17f}ell"] {
        assert_eq!(
            decode(vec![text("symbol", "AAPL"), text("side", side), whole("qty", 1)]),
            Err(InputFault::UnknownSide),
            "side {:?}",
            side
        );
    }
}

#[test]
fn buy_and_sell_are_accepted_in_either_case() {
    for side in ["BUY", "buy", "Buy", "bUY", "SELL", "sell", "Sell", "sElL"] {
        let order = decode(vec![text("symbol", "AAPL"), text("side", side), whole("qty", 1)]).expect("an order");
        assert_eq!(order.side, side);
    }
}

#[test]
fn the_first_fault_in_field_order_is_reported() {
    assert_eq!(
        decode(vec![text("symbol", ""), text("side", "HOLD"), text("qty", "x")]),
        Err(InputFault::EmptySymbol)
    );
    assert_eq!(
        decode(vec![text("symbol", "AAPL"), text("side", "HOLD"), text("qty", "x")]),
        Err(InputFault::UnknownSide)
    );
    assert_eq!(
        decode(vec![text("symbol", "AAPL"), text("side", "BUY"), text("qty", "x"), text("price", "y")]),
        Err(InputFault::WrongType(FieldName::Qty))
    );
}

#[test]
fn sell_is_read_in_either_case() {
    assert!(side_is_sell("SELL"));
    assert!(side_is_sell("sell"));
    assert!(side_is_sell("SeLl"));
    assert!(!side_is_sell("SEL"));
    assert!(!side_is_sell("SELLL"));
    assert!(!side_is_sell("BUY"));
    assert!(!side_is_sell(""));
    assert!(!side_is_sell("\u{17f}ell"));
}

#[test]
fn field_names_are_those_of_the_input() {
    assert_eq!(FieldName::Symbol.as_str(), "symbol");
    assert_eq!(FieldName::Side.as_str(), "side");
    assert_eq!(FieldName::Qty.as_str(), "qty");
    assert_eq!(FieldName::Price.as_str(), "price");
    assert_eq!(FieldName::StrategyId.as_str(), "strategy_id");
}

#[test]
fn faults_are_described_in_words() {
    assert_eq!(InputFault::NotAnObject.describe(), "expected an object");
    assert_eq!(InputFault::MissingField(FieldName::Qty).describe(), "missing field `qty`");
    assert_eq!(
        InputFault::WrongType(FieldName::StrategyId).describe(),
        "invalid type for field `strategy_id`"
    );
    assert_eq!(InputFault::EmptySymbol.describe(), "symbol must not be empty");
    assert_eq!(InputFault::UnknownSide.describe(), "side must be BUY or SELL");
}
