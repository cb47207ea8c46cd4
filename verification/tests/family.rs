use auto_curry::descriptor::{FunctionDescriptor, HardError, Warning};
use auto_curry::family::{
    auto_curry, generate_curry_family, param_slice, plan_sources, stage_types, transition_impl,
    EdgeOutput, FieldSource,
};
use auto_curry::plan::{EdgeKind, TransitionEdge};

fn strings(items: &[&str]) -> Vec<String> {
    items.iter().map(|s| s.to_string()).collect()
}

fn descriptor(params: &[&str], ret: &str) -> FunctionDescriptor {
    FunctionDescriptor {
        name: "test".to_string(),
        params: strings(params),
        return_type: ret.to_string(),
        is_const: false,
        is_async: false,
        has_receiver: false,
        extra_attributes: Vec::new(),
    }
}

fn quatro() -> FunctionDescriptor {
    descriptor(&["u8", "i16", "&'static str", "()"], "usize")
}

#[test]
fn family_of_four_parameters() {
    let expansion = auto_curry(&quatro());
    assert!(expansion.warnings.is_empty());
    let family = expansion.output.unwrap();
    assert_eq!(family.entry_name, "test");
    assert_eq!(family.underlying.params, strings(&["u8", "i16", "&'static str", "()"]));
    assert_eq!(family.underlying.return_type, "usize");
    assert_eq!(family.stages.len(), 4);
    assert_eq!(family.stages[0].index, 0);
    assert!(family.stages[0].fields.is_empty());
    assert_eq!(family.stages[1].fields, strings(&["u8"]));
    assert_eq!(family.stages[2].index, 2);
    assert_eq!(family.stages[2].fields, strings(&["u8", "i16"]));
    assert_eq!(family.stages[3].fields, strings(&["u8", "i16", "&'static str"]));
    assert_eq!(family.transitions.len(), 10);
}

#[test]
fn transitions_of_four_parameters() {
    let family = generate_curry_family(&quatro());
    let edges: Vec<(usize, usize)> =
        family.transitions.iter().map(|t| (t.edge.from, t.edge.to)).collect();
    assert_eq!(
        edges,
        vec![(0, 1), (0, 2), (0, 3), (0, 4), (1, 2), (1, 3), (1, 4), (2, 3), (2, 4), (3, 4)]
    );
    let t = &family.transitions[5];
    assert_eq!(t.arg_types, strings(&["i16", "&'static str"]));
    assert!(matches!(t.output, EdgeOutput::Stage(3)));
    assert_eq!(t.kind(), EdgeKind::Intermediate);
    assert_eq!(
        t.sources,
        vec![FieldSource::Bound(0), FieldSource::Supplied(0), FieldSource::Supplied(1)]
    );
    let last = &family.transitions[8];
    assert_eq!(last.arg_types, strings(&["&'static str", "()"]));
    assert_eq!(last.kind(), EdgeKind::Terminal);
    match &last.output {
        EdgeOutput::Return(ty) => assert_eq!(ty, "usize"),
        EdgeOutput::Stage(_) => panic!("a terminal transition returns the result"),
    }
    assert_eq!(
        last.sources,
        vec![
            FieldSource::Bound(0),
            FieldSource::Bound(1),
            FieldSource::Supplied(0),
            FieldSource::Supplied(1)
        ]
    );
    let direct = &family.transitions[3];
    assert_eq!(direct.arg_types, strings(&["u8", "i16", "&'static str", "()"]));
    assert_eq!(direct.kind(), EdgeKind::Terminal);
}

#[test]
fn every_terminal_transition_returns_the_return_type() {
    let family = generate_curry_family(&quatro());
    for t in family.transitions.iter() {
        match &t.output {
            EdgeOutput::Return(ty) => {
                assert_eq!(t.edge.to, 4);
                assert_eq!(ty, "usize");
            }
            EdgeOutput::Stage(i) => {
                assert!(t.edge.to < 4);
                assert_eq!(*i, t.edge.to);
            }
        }
        assert_eq!(t.arg_types.len(), t.edge.to - t.edge.from);
        assert_eq!(t.sources.len(), t.edge.to);
    }
}

#[test]
fn family_without_parameters() {
    let family = auto_curry(&descriptor(&[], "()")).output.unwrap();
    assert_eq!(family.stages.len(), 1);
    assert!(family.stages[0].fields.is_empty());
    assert_eq!(family.transitions.len(), 1);
    let only = &family.transitions[0];
    assert_eq!((only.edge.from, only.edge.to), (0, 0));
    assert!(only.arg_types.is_empty());
    assert!(only.sources.is_empty());
    assert_eq!(only.kind(), EdgeKind::Terminal);
}

#[test]
fn family_of_one_parameter() {
    let family = auto_curry(&descriptor(&["u8"], "String")).output.unwrap();
    assert_eq!(family.stages.len(), 1);
    assert_eq!(family.transitions.len(), 1);
    let only = &family.transitions[0];
    assert_eq!((only.edge.from, only.edge.to), (0, 1));
    assert_eq!(only.arg_types, strings(&["u8"]));
    assert_eq!(only.sources, vec![FieldSource::Supplied(0)]);
    assert_eq!(only.kind(), EdgeKind::Terminal);
}

#[test]
fn family_of_two_parameters() {
    let family = auto_curry(&descriptor(&["u8", "&str"], "String")).output.unwrap();
    assert_eq!(family.stages.len(), 2);
    assert_eq!(family.stages[1].fields, strings(&["u8"]));
    assert_eq!(family.transitions.len(), 3);
    assert_eq!(family.transitions[0].kind(), EdgeKind::Intermediate);
    assert_eq!(family.transitions[1].kind(), EdgeKind::Terminal);
    assert_eq!(family.transitions[2].kind(), EdgeKind::Terminal);
    assert_eq!(
        family.transitions[2].sources,
        vec![FieldSource::Bound(0), FieldSource::Supplied(0)]
    );
}

#[test]
fn receiver_is_a_hard_error() {
    let mut d = quatro();
    d.has_receiver = true;
    let expansion = auto_curry(&d);
    assert!(matches!(expansion.output, Err(HardError::ReceiverParameterPresent)));
    assert!(expansion.warnings.is_empty());
}

#[test]
fn async_is_a_hard_error() {
    let mut d = quatro();
    d.is_async = true;
    let expansion = auto_curry(&d);
    assert!(matches!(expansion.output, Err(HardError::AsyncUnsupported)));
    assert!(expansion.warnings.is_empty());
}

#[test]
fn receiver_is_reported_before_async() {
    let mut d = quatro();
    d.is_async = true;
    d.has_receiver = true;
    d.is_const = true;
    d.extra_attributes = strings(&["#[inline]"]);
    let expansion = auto_curry(&d);
    assert!(matches!(expansion.output, Err(HardError::ReceiverParameterPresent)));
    assert_eq!(expansion.warnings, vec![Warning::AttributesIgnored]);
}

#[test]
fn const_async_warns_and_fails() {
    let mut d = quatro();
    d.is_async = true;
    d.is_const = true;
    let found = d.diagnose();
    assert_eq!(found.error, Some(HardError::AsyncUnsupported));
    assert_eq!(found.warnings, vec![Warning::ConstQualifierDropped]);
}

#[test]
fn attributes_are_ignored_with_a_warning() {
    let mut d = quatro();
    d.extra_attributes = strings(&["#[inline]", "#[must_use]"]);
    let expansion = auto_curry(&d);
    assert_eq!(expansion.warnings, vec![Warning::AttributesIgnored]);
    let family = expansion.output.unwrap();
    let plain = generate_curry_family(&quatro());
    assert_eq!(family.stages.len(), plain.stages.len());
    assert_eq!(family.transitions.len(), plain.transitions.len());
    for (a, b) in family.transitions.iter().zip(plain.transitions.iter()) {
        assert_eq!(a.edge, b.edge);
        assert_eq!(a.arg_types, b.arg_types);
        assert_eq!(a.sources, b.sources);
    }
}

#[test]
fn const_is_dropped_with_a_warning() {
    let mut d = quatro();
    d.is_const = true;
    let expansion = auto_curry(&d);
    assert_eq!(expansion.warnings, vec![Warning::ConstQualifierDropped]);
    let family = expansion.output.unwrap();
    assert_eq!(family.stages.len(), 4);
    assert_eq!(family.transitions.len(), 10);
}

#[test]
fn both_warnings_in_order() {
    let mut d = quatro();
    d.is_const = true;
    d.extra_attributes = strings(&["#[inline]"]);
    let expansion = auto_curry(&d);
    assert_eq!(
        expansion.warnings,
        vec![Warning::AttributesIgnored, Warning::ConstQualifierDropped]
    );
    assert!(expansion.output.is_ok());
}

#[test]
fn one_failure_leaves_the_next_function_alone() {
    let mut bad = quatro();
    bad.is_async = true;
    assert!(auto_curry(&bad).output.is_err());
    assert!(auto_curry(&quatro()).output.is_ok());
    assert_eq!(quatro().arity(), 4);
}

#[test]
fn pieces() {
    let params = strings(&["a", "b", "c"]);
    assert_eq!(param_slice(&params, 1, 3), strings(&["b", "c"]));
    assert_eq!(param_slice(&params, 2, 2), strings(&[]));
    assert_eq!(
        plan_sources(2, 3),
        vec![FieldSource::Bound(0), FieldSource::Bound(1), FieldSource::Supplied(0)]
    );
    assert!(plan_sources(0, 0).is_empty());
    let stages = stage_types(&params);
    assert_eq!(stages.len(), 3);
    assert_eq!(stages[2].fields, strings(&["a", "b"]));
    let made = transition_impl(&params, &"R".to_string(), TransitionEdge { from: 0, to: 2 });
    assert_eq!(made.arg_types, strings(&["a", "b"]));
    assert!(matches!(made.output, EdgeOutput::Stage(2)));
}

#[test]
fn root_entry_point() {
    let expansion = auto_curry::auto_curry(&descriptor(&["u8", "u8", "u8"], "u8"));
    let family = expansion.output.unwrap();
    assert_eq!(family.stages.len(), 3);
    assert_eq!(family.transitions.len(), 6);
}
