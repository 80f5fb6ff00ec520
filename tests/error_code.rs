use error_code::{
    DefinitionError, ErrorInfo, ParseFailure, Taxonomy, TaxonomyDecl, ToErrorInfo, VariantDecl,
};

fn variant(name: &str, code: &str, app_code: &str, client_msg: Option<&str>) -> VariantDecl {
    VariantDecl {
        name: name.to_string(),
        code: Some(code.to_string()),
        app_code: Some(app_code.to_string()),
        client_msg: client_msg.map(|m| m.to_string()),
    }
}

fn names(list: &[&str]) -> Vec<String> {
    list.iter().map(|n| n.to_string()).collect()
}

fn my_error_decl() -> TaxonomyDecl {
    TaxonomyDecl {
        prefix: Some("01".to_string()),
        variants: vec![
            variant("InvalidCommand", "IC", "400", None),
            variant("InvalidArgument", "IA", "400", Some("friendly msg")),
            variant("RespError", "RE", "500", None),
        ],
    }
}

fn my_error_names() -> Vec<String> {
    names(&["InvalidCommand", "InvalidArgument", "RespError"])
}

enum MyError {
    InvalidCommand(String),
    InvalidArgument(String),
    RespError(String),
}

impl MyError {
    fn describe(&self) -> String {
        match self {
            MyError::InvalidCommand(s) => format!("Invalid command: {}", s),
            MyError::InvalidArgument(s) => format!("Invalid argument: {}", s),
            MyError::RespError(s) => s.clone(),
        }
    }

    fn index(&self) -> usize {
        match self {
            MyError::InvalidCommand(_) => 0,
            MyError::InvalidArgument(_) => 1,
            MyError::RespError(_) => 2,
        }
    }
}

impl ToErrorInfo for MyError {
    type T = u16;

    fn to_error_info(&self) -> Result<ErrorInfo<u16>, ParseFailure> {
        let taxonomy = Taxonomy::define(&my_error_decl(), &my_error_names()).unwrap();
        taxonomy.dispatch(self.index(), self.describe())
    }
}

#[test]
fn test_data_struct() {
    let taxonomy = Taxonomy::define(&my_error_decl(), &my_error_names()).unwrap();
    assert_eq!(taxonomy.len(), 3);
    assert_eq!(taxonomy.prefix(), "01");
    assert_eq!(taxonomy.code(0), "01IC");
    assert_eq!(taxonomy.code(1), "01IA");
    assert_eq!(taxonomy.code(2), "01RE");
}

#[test]
fn invalid_command_dispatch() {
    let info = MyError::InvalidCommand("foo".to_string()).to_error_info().unwrap();
    assert_eq!(info.code, "01IC");
    assert_eq!(info.client_msg(), "Invalid command: foo");
    assert_eq!(info.app_code, 400);
    assert_eq!(info.server_msg, "Invalid command: foo");
}

#[test]
fn invalid_argument_uses_declared_message() {
    let info = MyError::InvalidArgument("secret detail".to_string()).to_error_info().unwrap();
    assert_eq!(info.code, "01IA");
    assert_eq!(info.client_msg(), "friendly msg");
    assert_eq!(info.server_msg, "Invalid argument: secret detail");
    let other = MyError::InvalidArgument("x".to_string()).to_error_info().unwrap();
    assert_eq!(other.client_msg(), "friendly msg");
}

#[test]
fn resp_error_status() {
    let info = MyError::RespError("boom".to_string()).to_error_info().unwrap();
    assert_eq!(info.app_code, 500);
    assert_eq!(info.code, "01RE");
}

#[test]
fn app_code_not_a_number_fails() {
    let decl = TaxonomyDecl {
        prefix: Some("01".to_string()),
        variants: vec![variant("Broken", "BR", "not-a-number", None)],
    };
    let taxonomy = Taxonomy::define(&decl, &names(&["Broken"])).unwrap();
    match taxonomy.dispatch::<u16>(0, "broken".to_string()) {
        Ok(_) => panic!("a status that is not a number was accepted"),
        Err(e) => assert_eq!(e, ParseFailure { app_code: "not-a-number".to_string() }),
    }
}

#[test]
fn duplicate_codes_are_refused() {
    let decl = TaxonomyDecl {
        prefix: Some("01".to_string()),
        variants: vec![
            variant("A", "X", "400", None),
            variant("B", "Y", "400", None),
            variant("C", "X", "500", None),
        ],
    };
    let r = Taxonomy::define(&decl, &names(&["A", "B", "C"]));
    assert_eq!(r.err(), Some(DefinitionError::DuplicateCode { first: 0, second: 2 }));
}

#[test]
fn missing_prefix_is_refused() {
    let mut decl = my_error_decl();
    decl.prefix = None;
    let r = Taxonomy::define(&decl, &my_error_names());
    assert_eq!(r.err(), Some(DefinitionError::MissingPrefix));
}

#[test]
fn variant_count_mismatch_is_refused() {
    let r = Taxonomy::define(&my_error_decl(), &names(&["InvalidCommand", "InvalidArgument"]));
    assert_eq!(r.err(), Some(DefinitionError::VariantCountMismatch));
}

#[test]
fn variant_name_mismatch_is_refused() {
    let r = Taxonomy::define(&my_error_decl(), &names(&["InvalidCommand", "Other", "RespError"]));
    assert_eq!(r.err(), Some(DefinitionError::VariantNameMismatch { index: 1 }));
}

#[test]
fn missing_code_is_refused() {
    let mut decl = my_error_decl();
    decl.variants[2].code = None;
    let r = Taxonomy::define(&decl, &my_error_names());
    assert_eq!(r.err(), Some(DefinitionError::MissingCode { index: 2 }));
}

#[test]
fn empty_code_is_refused() {
    let mut decl = my_error_decl();
    decl.variants[1].code = Some(String::new());
    let r = Taxonomy::define(&decl, &my_error_names());
    assert_eq!(r.err(), Some(DefinitionError::EmptyCode { index: 1 }));
}

#[test]
fn missing_app_code_is_refused() {
    let mut decl = my_error_decl();
    decl.variants[0].app_code = None;
    let r = Taxonomy::define(&decl, &my_error_names());
    assert_eq!(r.err(), Some(DefinitionError::MissingAppCode { index: 0 }));
}

#[test]
fn empty_taxonomy_is_defined() {
    let decl = TaxonomyDecl { prefix: Some("0A".to_string()), variants: vec![] };
    let taxonomy = Taxonomy::define(&decl, &names(&[])).unwrap();
    assert_eq!(taxonomy.len(), 0);
}

#[test]
fn display_and_debug_forms() {
    let info = ErrorInfo::<u16>::new(
        "404",
        "0ANF".to_string(),
        String::new(),
        "Item 7 not found".to_string(),
    );
    assert_eq!(info.app_code, 404);
    assert_eq!(info.display_text(), "[0ANF] Item 7 not found");
    assert_eq!(info.debug_text(), "[0ANF] Item 7 not found");
    let hidden = ErrorInfo::<u16>::new(
        "500",
        "0AISE".to_string(),
        "please try again later".to_string(),
        "stack trace".to_string(),
    );
    assert_eq!(hidden.display_text(), "[0AISE] please try again later");
    assert_eq!(hidden.debug_text(), "[0AISE] stack trace");
}

#[test]
fn wire_form_keeps_code_and_stored_message() {
    let info = MyError::InvalidArgument("x".to_string()).to_error_info().unwrap();
    let wire = info.to_wire();
    assert_eq!(wire.code, "01IA");
    assert_eq!(wire.msg, "friendly msg");
    let plain = MyError::InvalidCommand("foo".to_string()).to_error_info().unwrap();
    let wire = plain.to_wire();
    assert_eq!(wire.code, "01IC");
    assert_eq!(wire.msg, "");
}

#[test]
fn status_text_forms() {
    let ok = |s: &str| ErrorInfo::<u16>::try_new(s, String::new(), String::new(), String::new());
    assert_eq!(ok("+400").unwrap().app_code, 400);
    assert_eq!(ok("0065535").unwrap().app_code, 65535);
    assert!(ok("65536").is_err());
    assert!(ok(" 400").is_err());
    assert!(ok("400 ").is_err());
    assert!(ok("").is_err());
    assert!(ok("+").is_err());
    assert!(ok("-0").is_err());
}
