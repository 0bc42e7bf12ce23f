use typed_cfg::{
    is_check_cfg, standard_axes, Axis, CanBe, CfgPair, ConfigError, FactTable, Is, Oracle,
    Registry, Requirement,
};

fn axis(name: &str, literals: &[&str]) -> Axis {
    Axis {
        name: name.to_string(),
        literals: literals.iter().map(|l| l.to_string()).collect(),
    }
}

fn pair(axis: &str, value: &str) -> CfgPair {
    CfgPair { axis: axis.to_string(), value: value.to_string() }
}

fn oracle(truths: &[(&str, &str)]) -> Oracle {
    Oracle {
        truths: truths.iter().map(|(a, v)| pair(a, v)).collect(),
        strict: false,
        recognized: Vec::new(),
    }
}

fn table(axes: Vec<Axis>, o: &Oracle) -> FactTable {
    let reg = Registry::new(axes).unwrap();
    FactTable::synthesize(&reg, o).unwrap()
}

fn req(t: &FactTable, a: &str, v: &str) -> Requirement {
    t.require(a, v).unwrap()
}

#[test]
fn check_cfg_switch_spellings() {
    for on in ["1", "true", "TRUE", "yes", "YES"] {
        assert!(is_check_cfg(Some(on)), "{on}");
    }
    for off in ["0", "false", "True", "no", "", "yes "] {
        assert!(!is_check_cfg(Some(off)), "{off}");
    }
    assert!(!is_check_cfg(None));
}

#[test]
fn registry_rejects_empty_axis() {
    let r = Registry::new(vec![axis("os", &["linux"]), axis("arch", &[])]);
    assert_eq!(r.err(), Some(ConfigError::EmptyAxis { axis: "arch".to_string() }));
}

#[test]
fn registry_rejects_duplicate_axis() {
    let r = Registry::new(vec![axis("os", &["linux"]), axis("os", &["windows"])]);
    assert_eq!(r.err(), Some(ConfigError::DuplicateAxis { axis: "os".to_string() }));
}

#[test]
fn registry_rejects_duplicate_literal() {
    let r = Registry::new(vec![axis("os", &["linux", "windows", "linux"])]);
    assert_eq!(
        r.err(),
        Some(ConfigError::DuplicateLiteral {
            axis: "os".to_string(),
            literal: "linux".to_string()
        })
    );
}

#[test]
fn standard_axes_are_well_formed() {
    let reg = Registry::new(standard_axes()).unwrap();
    assert_eq!(reg.len(), 10);
    assert_eq!(reg.axis(0).name, "target_arch");
    assert_eq!(reg.axis(3).name, "target_family");
    assert_eq!(reg.axis(3).literals, vec!["unix", "windows", "wasm"]);
    assert_eq!(reg.axis(4).literals[0], "");
    assert_eq!(reg.axis(9).name, "panic");
}

#[test]
fn can_be_exactly_for_declared_literals() {
    let t = table(vec![axis("os", &["linux", "windows"])], &oracle(&[("os", "linux")]));
    let m = t.marker("os").unwrap();
    assert_eq!(m.axis(), "os");
    assert!(m.can_be("linux"));
    assert!(m.can_be("windows"));
    assert!(!m.can_be("macos"));
    assert!(t.marker("arch").is_none());
}

#[test]
fn is_exactly_when_reported() {
    let t = table(
        vec![axis("os", &["linux", "windows"]), axis("arch", &["x86", "arm"])],
        &oracle(&[("os", "linux"), ("feature", "foo"), ("arch", "mips")]),
    );
    let os = t.marker("os").unwrap();
    assert!(os.is("linux"));
    assert!(!os.is("windows"));
    assert_eq!(os.guaranteed(), Some("linux"));
    let arch = t.marker("arch").unwrap();
    assert!(!arch.is("x86"));
    assert!(!arch.is("arm"));
    assert!(!arch.is("mips"));
    assert_eq!(arch.guaranteed(), None);
    assert!(t.guarantees("os", "linux"));
    assert!(!t.guarantees("os", "windows"));
    assert!(!t.guarantees("feature", "foo"));
}

#[test]
fn inconsistent_oracle_is_rejected() {
    let reg = Registry::new(vec![
        axis("os", &["linux"]),
        axis("feature", &["foo", "bar", "baz"]),
    ])
    .unwrap();
    let o = oracle(&[("feature", "baz"), ("feature", "foo")]);
    let r = FactTable::synthesize(&reg, &o);
    assert_eq!(
        r.err(),
        Some(ConfigError::InconsistentOracleAnswer {
            axis: "feature".to_string(),
            first: "foo".to_string(),
            second: "baz".to_string()
        })
    );
}

#[test]
fn requirement_must_name_declared_pair() {
    let t = table(vec![axis("os", &["linux", "windows"])], &oracle(&[]));
    let q = t.require("os", "windows").unwrap();
    assert_eq!(q.axis(), "os");
    assert_eq!(q.literal(), "windows");
    assert_eq!(
        t.require("os", "macos").err(),
        Some(ConfigError::UndeclaredLiteral {
            axis: "os".to_string(),
            literal: "macos".to_string()
        })
    );
    assert_eq!(
        t.require("arch", "x86").err(),
        Some(ConfigError::UndeclaredAxis { axis: "arch".to_string() })
    );
}

#[test]
fn synthesized_requirement_accepted_from_anywhere() {
    let t = table(vec![axis("os", &["linux", "windows"])], &oracle(&[("os", "linux")]));
    let linux = req(&t, "os", "linux");
    assert!(t.check_call(&vec![], &vec![linux]).is_ok());
}

#[test]
fn unsynthesized_unforwarded_requirement_rejected() {
    let t = table(vec![axis("os", &["linux", "windows"])], &oracle(&[("os", "linux")]));
    let caller = vec![req(&t, "os", "linux")];
    let d = t.check_call(&caller, &vec![req(&t, "os", "windows")]).unwrap_err();
    assert_eq!(d.axis(), "os");
    assert_eq!(d.literal(), "windows");
}

#[test]
fn forwarded_requirement_accepted_without_synthesis() {
    let t = table(vec![axis("target_family", &["unix", "windows", "wasm"])], &oracle(&[]));
    let unix = || req(&t, "target_family", "unix");
    assert!(t.check_call(&vec![unix()], &vec![unix()]).is_ok());
    assert!(t.check_call(&vec![], &vec![unix()]).is_err());
}

#[test]
fn first_unsatisfied_requirement_reported() {
    let t = table(
        vec![axis("os", &["linux", "windows"]), axis("feature", &["foo", "bar"])],
        &oracle(&[("os", "linux")]),
    );
    let callee = vec![
        req(&t, "os", "linux"),
        req(&t, "feature", "foo"),
        req(&t, "feature", "bar"),
    ];
    let d = t.check_call(&vec![req(&t, "feature", "foo")], &callee).unwrap_err();
    assert_eq!((d.axis(), d.literal()), ("feature", "bar"));
    let all = vec![req(&t, "feature", "foo"), req(&t, "feature", "bar")];
    assert!(t.check_call(&all, &callee).is_ok());
}

#[test]
fn diagnostic_text() {
    let t = table(vec![axis("feature", &["foo", "bar"])], &oracle(&[]));
    let d = t.check_call(&vec![], &vec![req(&t, "feature", "bar")]).unwrap_err();
    assert_eq!(d.message(), "Configuration requirements are not always met");
    assert_eq!(
        d.label(),
        "The compile-time condition cfg(feature = bar) is not always true in this scope"
    );
    assert_eq!(
        d.note(),
        "Consider adding the requirement Is(feature, bar) to the enclosing function, so that its callers respect the required configuration"
    );
}

#[test]
fn linux_build_accepts_linux_only() {
    let t = table(vec![axis("os", &["linux", "windows"])], &oracle(&[("os", "linux")]));
    assert!(t.check_call(&vec![], &vec![req(&t, "os", "linux")]).is_ok());
    assert!(t.check_call(&vec![], &vec![req(&t, "os", "windows")]).is_err());
}

#[test]
fn frobnicate_cannot_call_barnicate() {
    for truths in [vec![], vec![("feature", "foo")], vec![("feature", "bar")]] {
        let t = table(vec![axis("feature", &["foo", "bar"])], &oracle(&truths));
        let frobnicate = vec![req(&t, "feature", "foo")];
        let barnicate = vec![req(&t, "feature", "bar")];
        let r = t.check_call(&frobnicate, &barnicate);
        if truths.is_empty() || truths[0].1 == "foo" {
            let d = r.unwrap_err();
            assert_eq!((d.axis(), d.literal()), ("feature", "bar"));
        } else {
            assert!(r.is_ok());
        }
    }
}

#[test]
fn unix_thing_from_unconstrained_main() {
    let families = vec![axis("target_family", &["unix", "windows", "wasm"])];
    for truths in [vec![], vec![("target_family", "windows")], vec![("target_family", "wasm")]] {
        let t = table(vec![axis("target_family", &["unix", "windows", "wasm"])], &oracle(&truths));
        let do_unix_thing = vec![req(&t, "target_family", "unix")];
        let d = t.check_call(&vec![], &do_unix_thing).unwrap_err();
        assert_eq!((d.axis(), d.literal()), ("target_family", "unix"));
        // do_unix_thing forwards to do_other_unix_thing.
        assert!(t.check_call(&do_unix_thing, &vec![req(&t, "target_family", "unix")]).is_ok());
    }
    let t = table(families, &oracle(&[("target_family", "unix")]));
    assert!(t.check_call(&vec![], &vec![req(&t, "target_family", "unix")]).is_ok());
}

#[test]
fn synthesis_is_deterministic() {
    let reg = Registry::new(standard_axes()).unwrap();
    let mut o = oracle(&[("target_os", "linux"), ("target_family", "unix"), ("panic", "abort")]);
    o.strict = true;
    o.recognized = vec![pair("target_os", "linux")];
    let t1 = FactTable::synthesize(&reg, &o).unwrap();
    let t2 = FactTable::synthesize(&reg, &o).unwrap();
    for i in 0..reg.len() {
        let a = reg.axis(i);
        let (m1, m2) = (t1.marker(&a.name).unwrap(), t2.marker(&a.name).unwrap());
        assert_eq!(m1.guaranteed(), m2.guaranteed());
        assert_eq!(m1.verified(), m2.verified());
        for l in &a.literals {
            assert_eq!(m1.is(l), m2.is(l));
            assert_eq!(m1.can_be(l), m2.can_be(l));
        }
    }
    let w1: Vec<(String, String)> = t1.unrecognized().into_iter().map(|p| (p.axis, p.value)).collect();
    let w2: Vec<(String, String)> = t2.unrecognized().into_iter().map(|p| (p.axis, p.value)).collect();
    assert_eq!(w1, w2);
}

#[test]
fn strict_mode_warns_without_changing_outcome() {
    let axes = || vec![axis("os", &["linux", "windows"]), axis("feature", &["foo", "bra"])];
    let truths = [("os", "linux"), ("feature", "bra")];
    let relaxed = oracle(&truths);
    let mut strict = oracle(&truths);
    strict.strict = true;
    strict.recognized = vec![pair("os", "linux"), pair("os", "windows"), pair("feature", "foo")];
    let t_relaxed = table(axes(), &relaxed);
    let t_strict = table(axes(), &strict);

    assert!(t_relaxed.unrecognized().is_empty());
    let w = t_strict.unrecognized();
    assert_eq!(w.len(), 1);
    assert_eq!((w[0].axis.as_str(), w[0].value.as_str()), ("feature", "bra"));
    assert!(t_strict.marker("os").unwrap().verified());
    assert!(!t_strict.marker("feature").unwrap().verified());
    assert!(!t_relaxed.marker("os").unwrap().verified());
    assert!(t_strict.strict());

    for (a, v) in [("os", "linux"), ("os", "windows"), ("feature", "foo"), ("feature", "bra")] {
        let r1 = t_relaxed.check_call(&vec![], &vec![req(&t_relaxed, a, v)]).is_ok();
        let r2 = t_strict.check_call(&vec![], &vec![req(&t_strict, a, v)]).is_ok();
        assert_eq!(r1, r2, "{a} = {v}");
    }
    assert!(t_strict.check_call(&vec![], &vec![req(&t_strict, "feature", "bra")]).is_ok());
}
