use vstd::prelude::*;

use crate::error::ConfigError;
use crate::text::{position_of, same_text, texts};

verus! {

/// An axis as a mathematical value: its name and its literals, in order.
pub struct AxisModel {
    pub name: Seq<char>,
    pub literals: Seq<Seq<char>>,
}

/// One configuration axis as the integrator declares it.
pub struct Axis {
    pub name: String,
    pub literals: Vec<String>,
}

impl View for Axis {
    type V = AxisModel;

    open spec fn view(&self) -> AxisModel {
        AxisModel { name: self.name@, literals: texts(self.literals@) }
    }
}

/// The views of a list of axes.
pub open spec fn axis_models(axes: Seq<Axis>) -> Seq<AxisModel> {
    axes.map_values(|a: Axis| a@)
}

/// No literal occurs twice.
pub open spec fn literals_unique(lits: Seq<Seq<char>>) -> bool {
    forall|j1: int, j2: int| 0 <= j1 < j2 < lits.len() ==> lits[j1] != lits[j2]
}

/// The axis at `i` has literals, none twice, and a name that no earlier axis has.
pub open spec fn axis_ok(axes: Seq<AxisModel>, i: int) -> bool {
    &&& axes[i].literals.len() > 0
    &&& literals_unique(axes[i].literals)
    &&& forall|k: int| 0 <= k < i ==> axes[k].name != axes[i].name
}

/// A well-formed registry: every axis is declared properly.
pub open spec fn registry_wf(axes: Seq<AxisModel>) -> bool {
    forall|i: int| 0 <= i < axes.len() ==> axis_ok(axes, i)
}

/// The pair (axis `a`, literal `v`) is declared.
pub open spec fn declared(axes: Seq<AxisModel>, a: Seq<char>, v: Seq<char>) -> bool {
    exists|i: int| 0 <= i < axes.len() && axes[i].name == a && axes[i].literals.contains(v)
}

/// `e` describes what is wrong with the axis at `i`, checked in the order:
/// no literals, a name taken earlier, a repeated literal.
pub open spec fn defect_at(axes: Seq<AxisModel>, i: int, e: ConfigError) -> bool {
    let ax = axes[i];
    match e {
        ConfigError::EmptyAxis { axis } => axis@ == ax.name && ax.literals.len() == 0,
        ConfigError::DuplicateAxis { axis } => {
            &&& axis@ == ax.name
            &&& ax.literals.len() > 0
            &&& exists|k: int| 0 <= k < i && axes[k].name == ax.name
        },
        ConfigError::DuplicateLiteral { axis, literal } => {
            &&& axis@ == ax.name
            &&& ax.literals.len() > 0
            &&& forall|k: int| 0 <= k < i ==> axes[k].name != ax.name
            &&& exists|j1: int, j2: int|
                0 <= j1 < j2 < ax.literals.len() && ax.literals[j1] == literal@
                    && ax.literals[j2] == literal@
        },
        _ => false,
    }
}

/// A declared, well-formed set of axes. Immutable once built.
pub struct Registry {
    axes: Vec<Axis>,
}

impl View for Registry {
    type V = Seq<AxisModel>;

    closed spec fn view(&self) -> Seq<AxisModel> {
        axis_models(self.axes@)
    }
}

impl Registry {
    #[verifier::type_invariant]
    closed spec fn inv(&self) -> bool {
        registry_wf(self@)
    }
}

/// Finds the first axis before `end` named `name`.
fn axis_position(axes: &Vec<Axis>, end: usize, name: &str) -> (r: Option<usize>)
    requires
        end <= axes@.len(),
    ensures
        match r {
            Some(k) => k < end && axes@[k as int].name@ == name@,
            None => forall|k: int| 0 <= k < end ==> axes@[k].name@ != name@,
        },
{
    let mut k: usize = 0;
    while k < end
        invariant
            end <= axes@.len(),
            k <= end,
            forall|j: int| 0 <= j < k ==> axes@[j].name@ != name@,
        decreases end - k,
    {
        if same_text(axes[k].name.as_str(), name) {
            return Some(k);
        }
        k = k + 1;
    }
    None
}

/// Finds a literal that occurs twice in `lits`.
fn repeated_literal(lits: &Vec<String>) -> (r: Option<usize>)
    ensures
        match r {
            Some(j) => j < lits@.len() && exists|j1: int, j2: int|
                0 <= j1 < j2 < lits@.len() && lits@[j1]@ == lits@[j as int]@ && lits@[j2]@
                    == lits@[j as int]@,
            None => literals_unique(texts(lits@)),
        },
{
    let mut j: usize = 0;
    while j < lits.len()
        invariant
            j <= lits@.len(),
            forall|j1: int, j2: int| 0 <= j1 < j2 < j ==> lits@[j1]@ != lits@[j2]@,
        decreases lits@.len() - j,
    {
        let p = position_of(lits, lits[j].as_str());
        match p {
            Some(first) => {
                if first < j {
                    return Some(j);
                }
            },
            None => {},
        }
        j = j + 1;
    }
    assert forall|j1: int, j2: int| 0 <= j1 < j2 < texts(lits@).len() implies texts(
        lits@,
    )[j1] != texts(lits@)[j2] by {
        assert(lits@[j1]@ != lits@[j2]@);
    }
    None
}


/// The axes of the host's built-in target configuration, with the values
/// that each commonly takes.
pub open spec fn standard_model() -> Seq<AxisModel> {
    seq![
        AxisModel {
            name: "target_arch"@,
            literals: seq!["x86"@, "x86_64"@, "mips"@, "powerpc"@, "powerpc64"@, "arm"@, "aarch64"@],
        },
        AxisModel {
            name: "target_feature"@,
            literals: seq!["avx"@, "avx2"@, "crt-static"@, "rdrand"@, "sse"@, "sse2"@, "sse4.1"@],
        },
        AxisModel {
            name: "target_os"@,
            literals: seq!["windows"@, "macos"@, "ios"@, "linux"@, "android"@, "freebsd"@, "dragonfly"@, "openbsd"@, "netbsd"@, "none"@],
        },
        AxisModel {
            name: "target_family"@,
            literals: seq!["unix"@, "windows"@, "wasm"@],
        },
        AxisModel {
            name: "target_env"@,
            literals: seq![""@, "gnu"@, "msvc"@, "musl"@, "sgx"@],
        },
        AxisModel {
            name: "target_abi"@,
            literals: seq![""@, "llvm"@, "eabihf"@, "abi64"@, "sim"@, "macabi"@],
        },
        AxisModel {
            name: "target_endian"@,
            literals: seq!["little"@, "big"@],
        },
        AxisModel {
            name: "target_pointer_width"@,
            literals: seq!["16"@, "32"@, "64"@],
        },
        AxisModel {
            name: "target_vendor"@,
            literals: seq!["apple"@, "fortanix"@, "pc"@, "unknown"@],
        },
        AxisModel {
            name: "panic"@,
            literals: seq!["abort"@, "unwind"@],
        },
    ]
}

/// An axis named `name` with the literals `lits`, in order.
fn axis_of(name: &str, lits: Vec<&str>) -> (r: Axis)
    ensures
        r@ == (AxisModel { name: name@, literals: lits@.map_values(|l: &str| l@) }),
{
    let mut literals: Vec<String> = Vec::new();
    let mut i: usize = 0;
    while i < lits.len()
        invariant
            i <= lits@.len(),
            literals@.len() == i,
            forall|k: int| 0 <= k < i ==> literals@[k]@ == lits@[k]@,
        decreases lits@.len() - i,
    {
        literals.push(lits[i].to_owned());
        i = i + 1;
    }
    assert(texts(literals@) =~= lits@.map_values(|l: &str| l@));
    Axis { name: name.to_owned(), literals }
}

/// The built-in target axes, ready to be declared with `Registry::new`.
pub fn standard_axes() -> (r: Vec<Axis>)
    ensures
        axis_models(r@) == standard_model(),
{
    let mut axes: Vec<Axis> = Vec::new();
    let a = axis_of("target_arch", vec!["x86", "x86_64", "mips", "powerpc", "powerpc64", "arm", "aarch64"]);
    assert(a@.literals =~= standard_model()[0].literals);
    axes.push(a);
    let a = axis_of("target_feature", vec!["avx", "avx2", "crt-static", "rdrand", "sse", "sse2", "sse4.1"]);
    assert(a@.literals =~= standard_model()[1].literals);
    axes.push(a);
    let a = axis_of("target_os", vec!["windows", "macos", "ios", "linux", "android", "freebsd", "dragonfly", "openbsd", "netbsd", "none"]);
    assert(a@.literals =~= standard_model()[2].literals);
    axes.push(a);
    let a = axis_of("target_family", vec!["unix", "windows", "wasm"]);
    assert(a@.literals =~= standard_model()[3].literals);
    axes.push(a);
    let a = axis_of("target_env", vec!["", "gnu", "msvc", "musl", "sgx"]);
    assert(a@.literals =~= standard_model()[4].literals);
    axes.push(a);
    let a = axis_of("target_abi", vec!["", "llvm", "eabihf", "abi64", "sim", "macabi"]);
    assert(a@.literals =~= standard_model()[5].literals);
    axes.push(a);
    let a = axis_of("target_endian", vec!["little", "big"]);
    assert(a@.literals =~= standard_model()[6].literals);
    axes.push(a);
    let a = axis_of("target_pointer_width", vec!["16", "32", "64"]);
    assert(a@.literals =~= standard_model()[7].literals);
    axes.push(a);
    let a = axis_of("target_vendor", vec!["apple", "fortanix", "pc", "unknown"]);
    assert(a@.literals =~= standard_model()[8].literals);
    axes.push(a);
    let a = axis_of("panic", vec!["abort", "unwind"]);
    assert(a@.literals =~= standard_model()[9].literals);
    axes.push(a);
    assert(axis_models(axes@) =~= standard_model());
    axes
}

impl Registry {
    /// Declares the axes, in order. Fails on the first axis that has no
    /// literal, reuses an earlier name, or repeats a literal.
    pub fn new(axes: Vec<Axis>) -> (r: Result<Registry, ConfigError>)
        ensures
            r is Ok <==> registry_wf(axis_models(axes@)),
            match r {
                Ok(reg) => reg@ == axis_models(axes@),
                Err(e) => exists|i: int|
                    0 <= i < axes@.len() && (forall|k: int|
                        0 <= k < i ==> axis_ok(axis_models(axes@), k)) && defect_at(
                        axis_models(axes@),
                        i,
                        e,
                    ),
            },
    {
        let ghost m = axis_models(axes@);
        let mut i: usize = 0;
        while i < axes.len()
            invariant
                i <= axes@.len(),
                m == axis_models(axes@),
                forall|k: int| 0 <= k < i ==> axis_ok(m, k),
            decreases axes@.len() - i,
        {
            let ax = &axes[i];
            if ax.literals.len() == 0 {
                let e = ConfigError::EmptyAxis { axis: ax.name.clone() };
                assert(defect_at(m, i as int, e));
                assert(!axis_ok(m, i as int));
                return Err(e);
            }
            match axis_position(&axes, i, ax.name.as_str()) {
                Some(k) => {
                    let e = ConfigError::DuplicateAxis { axis: ax.name.clone() };
                    assert(m[k as int].name == m[i as int].name);
                    assert(defect_at(m, i as int, e));
                    assert(!axis_ok(m, i as int));
                    return Err(e);
                },
                None => {},
            }
            match repeated_literal(&ax.literals) {
                Some(j) => {
                    let e = ConfigError::DuplicateLiteral {
                        axis: ax.name.clone(),
                        literal: ax.literals[j].clone(),
                    };
                    let ghost lits = m[i as int].literals;
                    assert(lits == texts(ax.literals@));
                    let ghost (j1, j2) = choose|j1: int, j2: int|
                        0 <= j1 < j2 < ax.literals@.len() && ax.literals@[j1]@
                            == ax.literals@[j as int]@ && ax.literals@[j2]@
                            == ax.literals@[j as int]@;
                    assert(lits[j1] == lits[j2]);
                    assert(defect_at(m, i as int, e));
                    assert(!axis_ok(m, i as int));
                    return Err(e);
                },
                None => {},
            }
            assert(axis_ok(m, i as int));
            i = i + 1;
        }
        Ok(Registry { axes })
    }

    /// The number of declared axes.
    pub fn len(&self) -> (r: usize)
        ensures
            r == self@.len(),
            registry_wf(self@),
    {
        proof {
            use_type_invariant(self);
        }
        self.axes.len()
    }

    /// The axis at `i`.
    pub fn axis(&self, i: usize) -> (r: &Axis)
        requires
            i < self@.len(),
        ensures
            r@ == self@[i as int],
    {
        &self.axes[i]
    }
}

} // verus!
