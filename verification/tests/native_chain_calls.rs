use perry_lower_call::hir::Expr;
use perry_lower_call::ir::{FnBuilder, JsTag, Operand, Ty};
use perry_lower_call::native_dispatch::lower_native_chain_method_call;

fn chained(module: &str, prop: &str) -> Expr {
    Expr::PropertyGet {
        object: Box::new(Expr::NativeMethodCall {
            module: module.to_string(),
            method: "server".to_string(),
            object: None,
            args: vec![],
        }),
        property: prop.to_string(),
    }
}

#[test]
fn chained_call_on_a_native_result_uses_the_table_row() {
    let mut b = FnBuilder::new();
    let args = vec![Operand::Ext("%path".to_string()), Operand::Ext("%cb".to_string())];
    let res = lower_native_chain_method_call(&mut b, &chained("fastify", "get"), Operand::Ext("%h".to_string()), &args);
    assert!(matches!(res, Some(Operand::Tag(JsTag::Undefined))));
    assert_eq!(b.declares.len(), 1);
    assert_eq!(b.declares[0].name, "js_fastify_get");
    assert_eq!(b.declares[0].params[0], Ty::I64);
}

#[test]
fn chained_call_without_a_row_is_left_alone() {
    let mut b = FnBuilder::new();
    let res = lower_native_chain_method_call(&mut b, &chained("fastify", "nosuch"), Operand::Ext("%h".to_string()), &vec![]);
    assert!(res.is_none());
    assert!(b.blocks[0].insts.is_empty());
    assert!(b.declares.is_empty());
}
