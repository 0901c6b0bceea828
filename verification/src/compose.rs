//! Composing kinds: an enum with one variant for each kind, and one delegate
//! that reads whatever no other kind claims.
//!
//! The enum is taken as its shape, in plain values. What is refused, what is
//! checked and in what order the kinds are tried is decided here.

use vstd::prelude::*;

use crate::agency::kinds;
use crate::agency::kinds::{
    contains_kind, descriptor_kinds_claimed, kinds_disjoint, str_eq, ContentDescriptor,
};

verus! {

/// One key of an `#[agency(..)]` attribute.
#[derive(Debug)]
pub struct AttrKey {
    /// The key.
    pub name: String,
    /// The path it is given, where it is given one.
    pub path: Option<String>,
}

/// One variant of a composing enum.
#[derive(Debug)]
pub struct VariantShape {
    /// The variant's name.
    pub name: String,
    /// How many unnamed fields it has; `None` where it has no unnamed ones.
    pub unnamed_fields: Option<usize>,
    /// The keys of its attributes, as they are written.
    pub keys: Vec<AttrKey>,
}

/// A type that is to compose kinds.
#[derive(Debug)]
pub struct EnumShape {
    /// Whether it is an enum.
    pub is_enum: bool,
    /// How many generic parameters it has.
    pub generic_params: usize,
    /// The keys of its attributes, as they are written.
    pub keys: Vec<AttrKey>,
    /// Its variants, as they are declared.
    pub variants: Vec<VariantShape>,
}

/// Where a shape is at fault.
#[derive(Debug, Clone, Copy, PartialEq, Eq, Structural)]
pub enum Place {
    /// The type's name.
    Name,
    /// Its generic parameters.
    Generics,
    /// One of its keys.
    Key { key: usize },
    /// One of its variants.
    Variant { variant: usize },
    /// One key of one of its variants.
    VariantKey { variant: usize, key: usize },
}

/// What is wrong with a shape.
#[derive(Debug, Clone, Copy, PartialEq, Eq, Structural)]
pub enum Fault {
    NotAnEnum,
    Generic,
    UnknownKey,
    DuplicatePath,
    NotOneField,
    UnknownVariantKey,
    SecondDelegate,
    NoDelegate,
}

/// The first thing wrong with a shape.
#[derive(Debug, Clone, Copy, PartialEq, Eq, Structural)]
pub struct Defect {
    pub fault: Fault,
    pub place: Place,
}

impl Fault {
    /// What is said of the fault.
    pub open spec fn words(self) -> Seq<char> {
        match self {
            Fault::NotAnEnum => "#[derive(Agency)] composes an enum: one variant per kind, plus one #[agency(delegate)] variant holding the inner implementor"@,
            Fault::Generic => "#[derive(Agency)] takes a concrete enum; a composed kind set has no generic parameters"@,
            Fault::UnknownKey => "unknown #[agency(...)] key on the enum; the accepted set is `crate = path` here and `delegate` on the fallback variant"@,
            Fault::DuplicatePath => "duplicate #[agency(crate = ...)]; declare the path once"@,
            Fault::NotOneField => "every variant holds exactly one unnamed field: the kind it composes"@,
            Fault::UnknownVariantKey => "unknown #[agency(...)] key; the accepted set is `delegate` on the fallback variant and `crate = path` on the enum"@,
            Fault::SecondDelegate => "a second #[agency(delegate)] variant; the parse chain has exactly one fallback"@,
            Fault::NoDelegate => "no #[agency(delegate)] variant; mark the variant holding the inner implementor (the library's BlockKind, or another composed enum), which is where an unrecognised type string falls back to"@,
        }
    }

    /// What is said of the fault.
    pub fn text(self) -> (text: &'static str)
        ensures
            text@ == self.words(),
    {
        match self {
            Fault::NotAnEnum => "#[derive(Agency)] composes an enum: one variant per kind, plus one #[agency(delegate)] variant holding the inner implementor",
            Fault::Generic => "#[derive(Agency)] takes a concrete enum; a composed kind set has no generic parameters",
            Fault::UnknownKey => "unknown #[agency(...)] key on the enum; the accepted set is `crate = path` here and `delegate` on the fallback variant",
            Fault::DuplicatePath => "duplicate #[agency(crate = ...)]; declare the path once",
            Fault::NotOneField => "every variant holds exactly one unnamed field: the kind it composes",
            Fault::UnknownVariantKey => "unknown #[agency(...)] key; the accepted set is `delegate` on the fallback variant and `crate = path` on the enum",
            Fault::SecondDelegate => "a second #[agency(delegate)] variant; the parse chain has exactly one fallback",
            Fault::NoDelegate => "no #[agency(delegate)] variant; mark the variant holding the inner implementor (the library's BlockKind, or another composed enum), which is where an unrecognised type string falls back to",
        }
    }
}

/// An enum that composes kinds, by the positions of its variants.
#[derive(Debug)]
pub struct Composition {
    /// The key that gives the path to the library; `None` for the library's
    /// own name.
    pub path_key: Option<usize>,
    /// The variant that reads what no leaf claims.
    pub delegate: usize,
    /// The other variants, as they are declared.
    pub leaves: Vec<usize>,
}

/// What a composition is.
#[verifier::ext_equal]
pub struct Composed {
    pub path_key: Option<usize>,
    pub delegate: usize,
    pub leaves: Seq<usize>,
}

impl View for Composition {
    type V = Composed;

    open spec fn view(&self) -> Composed {
        Composed { path_key: self.path_key, delegate: self.delegate, leaves: self.leaves@ }
    }
}

/// The path a composition reaches the library under, from a list of keys on:
/// the one path that is declared, or none. Every key declares a path, and a
/// second declaration is refused rather than resolved.
pub open spec fn path_from(keys: Seq<AttrKey>, from: int, declared: Option<usize>) -> Result<
    Option<usize>,
    Defect,
>
    decreases keys.len() - from,
{
    if from < 0 || from >= keys.len() {
        Ok(declared)
    } else if keys[from].name@ != "crate"@ {
        Err(Defect { fault: Fault::UnknownKey, place: Place::Key { key: from as usize } })
    } else if declared is Some {
        Err(Defect { fault: Fault::DuplicatePath, place: Place::Key { key: from as usize } })
    } else {
        path_from(keys, from + 1, Some(from as usize))
    }
}

/// The first key of a variant, from a position on, that is not the mark of a
/// delegate.
pub open spec fn unknown_key_from(keys: Seq<AttrKey>, from: int) -> Option<int>
    decreases keys.len() - from,
{
    if from < 0 || from >= keys.len() {
        None
    } else if keys[from].name@ != "delegate"@ {
        Some(from)
    } else {
        unknown_key_from(keys, from + 1)
    }
}

/// Whether a variant holds one unnamed field, or what is wrong with it.
pub open spec fn payload(variant: VariantShape, at: usize) -> Result<(), Defect> {
    if variant.unnamed_fields == Some(1usize) {
        Ok(())
    } else {
        Err(Defect { fault: Fault::NotOneField, place: Place::Variant { variant: at } })
    }
}

/// Whether a variant is marked as a delegate, or what is wrong with its keys.
pub open spec fn mark(variant: VariantShape, at: usize) -> Result<bool, Defect> {
    match unknown_key_from(variant.keys@, 0) {
        Some(key) => Err(
            Defect {
                fault: Fault::UnknownVariantKey,
                place: Place::VariantKey { variant: at, key: key as usize },
            },
        ),
        None => Ok(variant.keys@.len() > 0),
    }
}

/// Whether a variant is a delegate, or the first thing wrong with it.
pub open spec fn variant_role(variant: VariantShape, at: usize) -> Result<bool, Defect> {
    match payload(variant, at) {
        Err(defect) => Err(defect),
        Ok(_) => mark(variant, at),
    }
}

/// The delegate and the leaves among the variants from a position on, given
/// those before it; or the first thing wrong with them.
pub open spec fn split_from(
    variants: Seq<VariantShape>,
    from: int,
    delegate: Option<usize>,
    leaves: Seq<usize>,
) -> Result<(Option<usize>, Seq<usize>), Defect>
    decreases variants.len() - from,
{
    if from < 0 || from >= variants.len() {
        Ok((delegate, leaves))
    } else {
        match variant_role(variants[from], from as usize) {
            Err(defect) => Err(defect),
            Ok(true) => if delegate is Some {
                Err(
                    Defect {
                        fault: Fault::SecondDelegate,
                        place: Place::Variant { variant: from as usize },
                    },
                )
            } else {
                split_from(variants, from + 1, Some(from as usize), leaves)
            },
            Ok(false) => split_from(variants, from + 1, delegate, leaves.push(from as usize)),
        }
    }
}

/// What a shape composes, or the first thing wrong with it: the type, its
/// generics, its keys, its variants in their order, and last that no variant
/// is a delegate.
pub open spec fn composed(shape: EnumShape) -> Result<Composed, Defect> {
    if !shape.is_enum {
        Err(Defect { fault: Fault::NotAnEnum, place: Place::Name })
    } else if shape.generic_params > 0 {
        Err(Defect { fault: Fault::Generic, place: Place::Generics })
    } else {
        match path_from(shape.keys@, 0, None) {
            Err(defect) => Err(defect),
            Ok(path_key) => match split_from(shape.variants@, 0, None, seq![]) {
                Err(defect) => Err(defect),
                Ok((Some(delegate), leaves)) => Ok(Composed { path_key, delegate, leaves }),
                Ok((None, _)) => Err(Defect { fault: Fault::NoDelegate, place: Place::Name }),
            },
        }
    }
}

/// The key that declares the path to the library.
pub fn crate_path(keys: &[AttrKey]) -> (path: Result<Option<usize>, Defect>)
    ensures
        path == path_from(keys@, 0, None),
        path matches Ok(Some(key)) ==> key < keys@.len(),
{
    let mut declared: Option<usize> = None;
    let mut index: usize = 0;
    while index < keys.len()
        invariant
            index <= keys.len(),
            path_from(keys@, 0, None) == path_from(keys@, index as int, declared),
            declared matches Some(key) ==> key < index,
        decreases keys.len() - index,
    {
        if !str_eq(keys[index].name.as_str(), "crate") {
            return Err(Defect { fault: Fault::UnknownKey, place: Place::Key { key: index } });
        }
        if declared.is_some() {
            return Err(Defect { fault: Fault::DuplicatePath, place: Place::Key { key: index } });
        }
        declared = Some(index);
        index += 1;
    }
    Ok(declared)
}

/// The path the library is reached under where no key declares one.
pub const LIBRARY_PATH: &'static str = "::agent_ledger";

/// The path a composition reaches the library under: the one its key gives, or
/// the library's own name.
pub open spec fn path_words(keys: Seq<AttrKey>, path_key: Option<usize>) -> Seq<char> {
    match path_key {
        Some(key) => match keys[key as int].path {
            Some(path) => path@,
            None => LIBRARY_PATH@,
        },
        None => LIBRARY_PATH@,
    }
}

/// The path every generated name of the library starts with.
pub fn library_path<'a>(keys: &'a [AttrKey], path_key: Option<usize>) -> (path: &'a str)
    requires
        path_key matches Some(key) ==> key < keys@.len(),
    ensures
        path@ == path_words(keys@, path_key),
{
    match path_key {
        Some(key) => match &keys[key].path {
            Some(path) => path.as_str(),
            None => LIBRARY_PATH,
        },
        None => LIBRARY_PATH,
    }
}

/// Whether a variant holds the one unnamed field that is the kind it composes.
pub fn variant_payload(variant: &VariantShape, at: usize) -> (held: Result<(), Defect>)
    ensures
        held == payload(*variant, at),
{
    if variant.unnamed_fields == Some(1usize) {
        Ok(())
    } else {
        Err(Defect { fault: Fault::NotOneField, place: Place::Variant { variant: at } })
    }
}

/// Whether a variant is marked as a delegate. No other key is accepted.
pub fn variant_is_delegate(variant: &VariantShape, at: usize) -> (marked: Result<bool, Defect>)
    ensures
        marked == mark(*variant, at),
{
    let mut index: usize = 0;
    while index < variant.keys.len()
        invariant
            index <= variant.keys.len(),
            unknown_key_from(variant.keys@, 0) == unknown_key_from(variant.keys@, index as int),
        decreases variant.keys.len() - index,
    {
        if !str_eq(variant.keys[index].name.as_str(), "delegate") {
            return Err(
                Defect {
                    fault: Fault::UnknownVariantKey,
                    place: Place::VariantKey { variant: at, key: index },
                },
            );
        }
        index += 1;
    }
    Ok(variant.keys.len() > 0)
}

/// Read a shape into a composition, or refuse it.
pub fn compose(shape: &EnumShape) -> (composition: Result<Composition, Defect>)
    ensures
        match composition {
            Ok(found) => composed(*shape) == Ok::<Composed, Defect>(found@) && (found.path_key
                matches Some(key) ==> key < shape.keys@.len()),
            Err(defect) => composed(*shape) == Err::<Composed, Defect>(defect),
        },
{
    if !shape.is_enum {
        return Err(Defect { fault: Fault::NotAnEnum, place: Place::Name });
    }
    if shape.generic_params > 0 {
        return Err(Defect { fault: Fault::Generic, place: Place::Generics });
    }
    let path_key: Option<usize> = match crate_path(&shape.keys) {
        Ok(path_key) => path_key,
        Err(defect) => {
            return Err(defect);
        },
    };
    let mut delegate: Option<usize> = None;
    let mut leaves: Vec<usize> = Vec::new();
    let mut index: usize = 0;
    assert(leaves@ =~= seq![]);
    while index < shape.variants.len()
        invariant
            index <= shape.variants.len(),
            shape.is_enum,
            shape.generic_params == 0,
            path_from(shape.keys@, 0, None) == Ok::<Option<usize>, Defect>(path_key),
            split_from(shape.variants@, 0, None, seq![]) == split_from(
                shape.variants@,
                index as int,
                delegate,
                leaves@,
            ),
        decreases shape.variants.len() - index,
    {
        let variant = &shape.variants[index];
        if let Err(defect) = variant_payload(variant, index) {
            return Err(defect);
        }
        match variant_is_delegate(variant, index) {
            Ok(is_delegate) => {
                if is_delegate {
                    if delegate.is_some() {
                        return Err(
                            Defect {
                                fault: Fault::SecondDelegate,
                                place: Place::Variant { variant: index },
                            },
                        );
                    }
                    delegate = Some(index);
                } else {
                    leaves.push(index);
                }
            },
            Err(defect) => {
                return Err(defect);
            },
        }
        index += 1;
    }
    match delegate {
        Some(delegate) => Ok(Composition { path_key, delegate, leaves }),
        None => Err(Defect { fault: Fault::NoDelegate, place: Place::Name }),
    }
}

/// Whether a defect of a shape of which so many variants were read stands,
/// whatever the rest of the shape is.
pub open spec fn stands(defect: Defect, variants_read: usize) -> bool {
    !(defect.fault is NoDelegate || (defect.fault is SecondDelegate && defect.place == (
    Place::Variant { variant: (variants_read - 1) as usize })))
}

/// Whether a defect of a shape that could be read only so far is reported before
/// the error at which the reading stopped. It is, unless the rest would have
/// decided it: that no variant is a delegate, or that the last variant, which
/// may not have been read to its end, is a second one.
pub fn defect_comes_first(defect: Defect, variants_read: usize) -> (first: bool)
    requires
        variants_read > 0 || !(defect.fault is SecondDelegate),
    ensures
        first == !(defect.fault is NoDelegate || (defect.fault is SecondDelegate && defect.place
            == (Place::Variant { variant: (variants_read - 1) as usize }))),
        first == stands(defect, variants_read),
{
    match defect.fault {
        Fault::NoDelegate => false,
        Fault::SecondDelegate => defect.place != (Place::Variant { variant: variants_read - 1 }),
        _ => true,
    }
}

impl Composition {
    /// The variants in the order of every dispatch, and of the claim: the
    /// delegate, then the leaves.
    pub fn all_variants(&self) -> (order: Vec<usize>)
        ensures
            order@ == seq![self.delegate] + self.leaves@,
    {
        let mut order: Vec<usize> = Vec::new();
        order.push(self.delegate);
        let mut index: usize = 0;
        assert(order@ =~= seq![self.delegate] + self.leaves@.take(0));
        while index < self.leaves.len()
            invariant
                index <= self.leaves.len(),
                order@ == seq![self.delegate] + self.leaves@.take(index as int),
            decreases self.leaves.len() - index,
        {
            order.push(self.leaves[index]);
            index += 1;
            assert(order@ =~= seq![self.delegate] + self.leaves@.take(index as int));
        }
        assert(self.leaves@.take(index as int) =~= self.leaves@);
        order
    }
}

/// One check that a composition has to pass, by the positions of its leaves.
#[derive(Debug, Clone, Copy, PartialEq, Eq, Structural)]
pub enum Check {
    /// The delegate is a kind that reads rows.
    Delegate,
    /// The leaf is a leaf kind.
    Leaf { leaf: usize },
    /// The leaf claims nothing the delegate claims.
    ApartFromDelegate { leaf: usize },
    /// The leaf claims nothing an earlier leaf claims.
    ApartFromSibling { leaf: usize, earlier: usize },
    /// The leaf's descriptors name only what the leaf claims.
    Covered { leaf: usize },
}

/// The checks of a leaf against the first so many of the leaves before it.
pub open spec fn sibling_checks(leaf: usize, upto: nat) -> Seq<Check>
    decreases upto,
{
    if upto == 0 {
        seq![]
    } else {
        sibling_checks(leaf, (upto - 1) as nat).push(
            Check::ApartFromSibling { leaf, earlier: (upto - 1) as usize },
        )
    }
}

/// The checks of a leaf.
pub open spec fn leaf_checks(leaf: usize) -> Seq<Check> {
    seq![Check::Leaf { leaf }, Check::ApartFromDelegate { leaf }] + sibling_checks(
        leaf,
        leaf as nat,
    ) + seq![Check::Covered { leaf }]
}

/// The checks of a composition of so many leaves, in their order.
pub open spec fn checks(leaves: nat) -> Seq<Check>
    decreases leaves,
{
    if leaves == 0 {
        seq![Check::Delegate]
    } else {
        checks((leaves - 1) as nat) + leaf_checks((leaves - 1) as usize)
    }
}

/// The checks that a composition of so many leaves has to pass, in the order
/// in which they are made: the delegate's, then each leaf's own against all
/// that was declared before it.
pub fn coherence_checks(leaves: usize) -> (list: Vec<Check>)
    ensures
        list@ == checks(leaves as nat),
{
    let mut list: Vec<Check> = Vec::new();
    list.push(Check::Delegate);
    let mut leaf: usize = 0;
    assert(list@ =~= checks(0));
    while leaf < leaves
        invariant
            leaf <= leaves,
            list@ == checks(leaf as nat),
        decreases leaves - leaf,
    {
        let ghost before = list@;
        list.push(Check::Leaf { leaf });
        list.push(Check::ApartFromDelegate { leaf });
        let ghost opened = before + seq![Check::Leaf { leaf }, Check::ApartFromDelegate { leaf }];
        assert(list@ =~= opened + sibling_checks(leaf, 0));
        let mut earlier: usize = 0;
        while earlier < leaf
            invariant
                earlier <= leaf,
                list@ == opened + sibling_checks(leaf, earlier as nat),
            decreases leaf - earlier,
        {
            list.push(Check::ApartFromSibling { leaf, earlier });
            earlier += 1;
            assert(list@ =~= opened + sibling_checks(leaf, earlier as nat));
        }
        list.push(Check::Covered { leaf });
        assert(list@ =~= before + leaf_checks(leaf));
        leaf += 1;
    }
    list
}

/// What is said of a leaf that claims what the delegate claims.
pub open spec fn delegate_words(leaf: Seq<char>, delegate: Seq<char>) -> Seq<char> {
    "variant `"@ + leaf + "` claims a stored type string the delegate `"@ + delegate
        + "` already claims; every stored string has exactly one owner in the parse chain"@
}

/// What is said of two leaves that claim one string.
pub open spec fn sibling_words(earlier: Seq<char>, leaf: Seq<char>) -> Seq<char> {
    "variants `"@ + earlier + "` and `"@ + leaf
        + "` both claim a stored type string; every stored string has exactly one owner in the parse chain"@
}

/// What is said of a leaf whose descriptors name what it does not claim.
pub open spec fn coverage_words(leaf: Seq<char>) -> Seq<char> {
    "variant `"@ + leaf
        + "` declares a descriptor claiming a stored type string its KINDS does not list; the store would write rows the parse chain hands to the inert fallback"@
}

/// What is said where a leaf claims what the delegate claims.
pub fn delegate_message(leaf: &str, delegate: &str) -> (text: String)
    ensures
        text@ == delegate_words(leaf@, delegate@),
{
    let mut text = String::new();
    text.append("variant `");
    text.append(leaf);
    text.append("` claims a stored type string the delegate `");
    text.append(delegate);
    text.append(
        "` already claims; every stored string has exactly one owner in the parse chain",
    );
    assert(text@ =~= delegate_words(leaf@, delegate@));
    text
}

/// What is said where two leaves claim one string.
pub fn sibling_message(earlier: &str, leaf: &str) -> (text: String)
    ensures
        text@ == sibling_words(earlier@, leaf@),
{
    let mut text = String::new();
    text.append("variants `");
    text.append(earlier);
    text.append("` and `");
    text.append(leaf);
    text.append(
        "` both claim a stored type string; every stored string has exactly one owner in the parse chain",
    );
    assert(text@ =~= sibling_words(earlier@, leaf@));
    text
}

/// What is said where a leaf's descriptors name what it does not claim.
pub fn coverage_message(leaf: &str) -> (text: String)
    ensures
        text@ == coverage_words(leaf@),
{
    let mut text = String::new();
    text.append("variant `");
    text.append(leaf);
    text.append(
        "` declares a descriptor claiming a stored type string its KINDS does not list; the store would write rows the parse chain hands to the inert fallback",
    );
    assert(text@ =~= coverage_words(leaf@));
    text
}

/// What a leaf declares.
pub struct LeafClaim {
    /// The stored type strings it parses from.
    pub kinds: Vec<&'static str>,
    /// The tables it brings along.
    pub descriptors: Vec<ContentDescriptor>,
}

/// Whether a check passes, given what the delegate claims and what the leaves
/// declare. What a trait bound says the compiler decides.
pub open spec fn passes(delegate: Seq<&str>, leaves: Seq<LeafClaim>, check: Check) -> bool {
    match check {
        Check::Delegate => true,
        Check::Leaf { .. } => true,
        Check::ApartFromDelegate { leaf } => kinds::disjoint(leaves[leaf as int].kinds@, delegate),
        Check::ApartFromSibling { leaf, earlier } => kinds::disjoint(
            leaves[leaf as int].kinds@,
            leaves[earlier as int].kinds@,
        ),
        Check::Covered { leaf } => kinds::all_claimed(
            leaves[leaf as int].descriptors@,
            leaves[leaf as int].kinds@,
        ),
    }
}

/// Whether a check speaks of leaves that are there.
pub open spec fn in_range(check: Check, leaves: nat) -> bool {
    match check {
        Check::Delegate => true,
        Check::Leaf { leaf } => leaf < leaves,
        Check::ApartFromDelegate { leaf } => leaf < leaves,
        Check::ApartFromSibling { leaf, earlier } => earlier < leaf < leaves,
        Check::Covered { leaf } => leaf < leaves,
    }
}

/// Whether one check passes.
pub fn check_passes(delegate: &[&str], leaves: &[LeafClaim], check: Check) -> (passed: bool)
    requires
        in_range(check, leaves@.len()),
    ensures
        passed == passes(delegate@, leaves@, check),
{
    match check {
        Check::Delegate => true,
        Check::Leaf { .. } => true,
        Check::ApartFromDelegate { leaf } => kinds_disjoint(&leaves[leaf].kinds, delegate),
        Check::ApartFromSibling { leaf, earlier } => kinds_disjoint(
            &leaves[leaf].kinds,
            &leaves[earlier].kinds,
        ),
        Check::Covered { leaf } => descriptor_kinds_claimed(
            &leaves[leaf].descriptors,
            &leaves[leaf].kinds,
        ),
    }
}

/// Whether the first so many checks of a list pass.
pub open spec fn passed_upto(
    delegate: Seq<&str>,
    leaves: Seq<LeafClaim>,
    list: Seq<Check>,
    upto: int,
) -> bool {
    forall|i: int| 0 <= i < upto ==> passes(delegate, leaves, #[trigger] list[i])
}

/// Whether a composition is coherent: every check passes.
pub open spec fn coherent(delegate: Seq<&str>, leaves: Seq<LeafClaim>) -> bool {
    passed_upto(delegate, leaves, checks(leaves.len()), checks(leaves.len()).len() as int)
}

proof fn sibling_checks_are_in_range(leaf: usize, upto: nat, leaves: nat)
    requires
        upto <= leaf < leaves,
    ensures
        sibling_checks(leaf, upto).len() == upto,
        forall|i: int|
            0 <= i < upto ==> sibling_checks(leaf, upto)[i] == (Check::ApartFromSibling {
                leaf,
                earlier: i as usize,
            }),
    decreases upto,
{
    if upto > 0 {
        sibling_checks_are_in_range(leaf, (upto - 1) as nat, leaves);
    }
}

proof fn checks_are_in_range(count: nat, leaves: nat)
    requires
        count <= leaves <= usize::MAX,
    ensures
        forall|i: int| 0 <= i < checks(count).len() ==> in_range(#[trigger] checks(count)[i], leaves),
    decreases count,
{
    if count > 0 {
        let leaf = (count - 1) as usize;
        checks_are_in_range((count - 1) as nat, leaves);
        sibling_checks_are_in_range(leaf, leaf as nat, leaves);
        let before = checks((count - 1) as nat);
        assert forall|i: int| 0 <= i < checks(count).len() implies in_range(
            #[trigger] checks(count)[i],
            leaves,
        ) by {
            if i < before.len() {
                assert(checks(count)[i] == before[i]);
            } else {
                let k = i - before.len();
                assert(checks(count)[i] == leaf_checks(leaf)[k]);
                if 2 <= k < 2 + leaf {
                    assert(leaf_checks(leaf)[k] == sibling_checks(leaf, leaf as nat)[k - 2]);
                }
            }
        }
    }
}

/// The first check a composition fails; `None` where it is coherent.
pub fn first_failed_check(delegate: &[&str], leaves: &[LeafClaim]) -> (failed: Option<Check>)
    ensures
        match failed {
            Some(check) => !coherent(delegate@, leaves@) && exists|at: int|
                0 <= at < checks(leaves@.len()).len() && #[trigger] checks(leaves@.len())[at]
                    == check && !passes(delegate@, leaves@, check) && passed_upto(
                    delegate@,
                    leaves@,
                    checks(leaves@.len()),
                    at,
                ),
            None => coherent(delegate@, leaves@),
        },
{
    let list = coherence_checks(leaves.len());
    proof {
        checks_are_in_range(leaves@.len(), leaves@.len());
    }
    let mut index: usize = 0;
    while index < list.len()
        invariant
            index <= list.len(),
            list@ == checks(leaves@.len()),
            forall|i: int| 0 <= i < list@.len() ==> in_range(#[trigger] list@[i], leaves@.len()),
            passed_upto(delegate@, leaves@, list@, index as int),
        decreases list.len() - index,
    {
        let check = list[index];
        if !check_passes(delegate, leaves, check) {
            assert(checks(leaves@.len())[index as int] == check);
            return Some(check);
        }
        index += 1;
    }
    None
}

proof fn a_check_is_made(count: nat, leaf: usize)
    requires
        leaf < count <= usize::MAX,
    ensures
        checks(count).contains(Check::ApartFromDelegate { leaf }),
        checks(count).contains(Check::Covered { leaf }),
        forall|earlier: usize|
            earlier < leaf ==> #[trigger] checks(count).contains(
                Check::ApartFromSibling { leaf, earlier },
            ),
    decreases count,
{
    let last = (count - 1) as usize;
    let before = checks((count - 1) as nat);
    let own = leaf_checks(last);
    if leaf < last {
        a_check_is_made((count - 1) as nat, leaf);
        assert forall|check: Check| before.contains(check) implies checks(count).contains(check) by {
            let i = choose|i: int| 0 <= i < before.len() && before[i] == check;
            assert(checks(count)[i] == check);
        }
        assert forall|earlier: usize| earlier < leaf implies #[trigger] checks(count).contains(
            Check::ApartFromSibling { leaf, earlier },
        ) by {
            assert(before.contains(Check::ApartFromSibling { leaf, earlier }));
        }
    } else {
        sibling_checks_are_in_range(leaf, leaf as nat, count);
        assert(checks(count)[before.len() as int + 1] == own[1]);
        assert(checks(count)[before.len() + 2 + leaf] == own[2 + leaf]);
        assert forall|earlier: usize| earlier < leaf implies #[trigger] checks(count).contains(
            Check::ApartFromSibling { leaf, earlier },
        ) by {
            assert(own[2 + earlier] == sibling_checks(leaf, leaf as nat)[earlier as int]);
            assert(checks(count)[before.len() + 2 + earlier] == own[2 + earlier]);
        }
    }
}

proof fn a_coherent_composition_passes(
    delegate: Seq<&str>,
    leaves: Seq<LeafClaim>,
    check: Check,
)
    requires
        coherent(delegate, leaves),
        checks(leaves.len()).contains(check),
    ensures
        passes(delegate, leaves, check),
{
    let list = checks(leaves.len());
    let i = choose|i: int| 0 <= i < list.len() && list[i] == check;
    assert(passes(delegate, leaves, list[i]));
}

/// In a coherent composition every stored string has one owner: what a leaf
/// claims the delegate does not, and no other leaf does.
pub proof fn a_coherent_composition_has_one_owner_per_string(
    delegate: Seq<&str>,
    leaves: Seq<LeafClaim>,
    stored: Seq<char>,
    leaf: int,
)
    requires
        coherent(delegate, leaves),
        leaves.len() <= usize::MAX,
        0 <= leaf < leaves.len(),
        kinds::claims(leaves[leaf].kinds@, stored),
    ensures
        !kinds::claims(delegate, stored),
        forall|other: int|
            0 <= other < leaves.len() && other != leaf ==> !kinds::claims(
                (#[trigger] leaves[other]).kinds@,
                stored,
            ),
{
    a_check_is_made(leaves.len(), leaf as usize);
    a_coherent_composition_passes(
        delegate,
        leaves,
        Check::ApartFromDelegate { leaf: leaf as usize },
    );
    assert forall|other: int| 0 <= other < leaves.len() && other != leaf implies !kinds::claims(
        (#[trigger] leaves[other]).kinds@,
        stored,
    ) by {
        if other < leaf {
            a_coherent_composition_passes(
                delegate,
                leaves,
                Check::ApartFromSibling { leaf: leaf as usize, earlier: other as usize },
            );
        } else {
            a_check_is_made(leaves.len(), other as usize);
            a_coherent_composition_passes(
                delegate,
                leaves,
                Check::ApartFromSibling { leaf: other as usize, earlier: leaf as usize },
            );
        }
    }
}

/// In a coherent composition every row a leaf's tables can hold is read back
/// as that leaf's: its type is one the leaf claims.
pub proof fn a_coherent_composition_reads_what_it_writes(
    delegate: Seq<&str>,
    leaves: Seq<LeafClaim>,
    leaf: int,
    table: int,
    kind: int,
)
    requires
        coherent(delegate, leaves),
        leaves.len() <= usize::MAX,
        0 <= leaf < leaves.len(),
        0 <= table < leaves[leaf].descriptors@.len(),
        0 <= kind < leaves[leaf].descriptors@[table].kinds@.len(),
    ensures
        kinds::claims(leaves[leaf].kinds@, leaves[leaf].descriptors@[table].kinds@[kind]@),
{
    a_check_is_made(leaves.len(), leaf as usize);
    a_coherent_composition_passes(delegate, leaves, Check::Covered { leaf: leaf as usize });
}

/// The first leaf, from a position on, that claims a stored string.
pub open spec fn arm_from(leaves: Seq<LeafClaim>, from: int, stored: Seq<char>) -> Option<int>
    decreases leaves.len() - from,
{
    if from < 0 || from >= leaves.len() {
        None
    } else if kinds::claims(leaves[from].kinds@, stored) {
        Some(from)
    } else {
        arm_from(leaves, from + 1, stored)
    }
}

/// The leaf that reads a row of a stored type: the first, as they are
/// declared, that claims it. `None` is the delegate's.
pub fn parse_arm(leaves: &[LeafClaim], stored: &str) -> (arm: Option<usize>)
    ensures
        match arm {
            Some(leaf) => arm_from(leaves@, 0, stored@) == Some(leaf as int) && leaf < leaves.len(),
            None => arm_from(leaves@, 0, stored@) is None,
        },
{
    let mut index: usize = 0;
    while index < leaves.len()
        invariant
            index <= leaves.len(),
            arm_from(leaves@, 0, stored@) == arm_from(leaves@, index as int, stored@),
        decreases leaves.len() - index,
    {
        if contains_kind(&leaves[index].kinds, stored) {
            return Some(index);
        }
        index += 1;
    }
    None
}

proof fn an_arm_claims(leaves: Seq<LeafClaim>, from: int, stored: Seq<char>)
    requires
        0 <= from,
    ensures
        arm_from(leaves, from, stored) matches Some(leaf) ==> from <= leaf < leaves.len()
            && kinds::claims(leaves[leaf].kinds@, stored) && forall|other: int|
            from <= other < leaf ==> !kinds::claims((#[trigger] leaves[other]).kinds@, stored),
        arm_from(leaves, from, stored) is None ==> forall|leaf: int|
            from <= leaf < leaves.len() ==> !kinds::claims((#[trigger] leaves[leaf]).kinds@, stored),
    decreases leaves.len() - from,
{
    if from < leaves.len() && !kinds::claims(leaves[from].kinds@, stored) {
        an_arm_claims(leaves, from + 1, stored);
    }
}

/// In a coherent composition the order of declaration decides nothing: the
/// leaf that reads a row is whichever claims its type, and what the delegate
/// claims is read by the delegate.
pub proof fn order_decides_nothing_in_a_coherent_composition(
    delegate: Seq<&str>,
    leaves: Seq<LeafClaim>,
    stored: Seq<char>,
)
    requires
        coherent(delegate, leaves),
        leaves.len() <= usize::MAX,
    ensures
        forall|leaf: int|
            0 <= leaf < leaves.len() && kinds::claims((#[trigger] leaves[leaf]).kinds@, stored)
                ==> arm_from(leaves, 0, stored) == Some(leaf),
        kinds::claims(delegate, stored) ==> arm_from(leaves, 0, stored) is None,
{
    an_arm_claims(leaves, 0, stored);
    assert forall|leaf: int|
        0 <= leaf < leaves.len() && kinds::claims(
            (#[trigger] leaves[leaf]).kinds@,
            stored,
        ) implies arm_from(leaves, 0, stored) == Some(leaf) by {
        a_coherent_composition_has_one_owner_per_string(delegate, leaves, stored, leaf);
    }
    if let Some(leaf) = arm_from(leaves, 0, stored) {
        a_coherent_composition_has_one_owner_per_string(delegate, leaves, stored, leaf);
    }
}

/// Whether a variant is one that a composition takes.
pub open spec fn sound_variant(variant: VariantShape) -> bool {
    variant.unnamed_fields == Some(1usize) && forall|k: int|
        0 <= k < variant.keys@.len() ==> (#[trigger] variant.keys@[k]).name@ == "delegate"@
}

/// Whether a variant is marked as a delegate.
pub open spec fn marked(variant: VariantShape) -> bool {
    variant.keys@.len() > 0
}

proof fn unknown_key_is_unknown(keys: Seq<AttrKey>, from: int)
    requires
        0 <= from,
    ensures
        match unknown_key_from(keys, from) {
            Some(key) => from <= key < keys.len() && keys[key].name@ != "delegate"@ && forall|
                k: int,
            |
                from <= k < key ==> (#[trigger] keys[k]).name@ == "delegate"@,
            None => forall|k: int|
                from <= k < keys.len() ==> (#[trigger] keys[k]).name@ == "delegate"@,
        },
    decreases keys.len() - from,
{
    if from < keys.len() && keys[from].name@ == "delegate"@ {
        unknown_key_is_unknown(keys, from + 1);
    }
}

proof fn splitting_goes_through(
    variants: Seq<VariantShape>,
    from: int,
    delegate: Option<usize>,
    leaves: Seq<usize>,
)
    requires
        0 <= from <= variants.len() <= usize::MAX,
        delegate matches Some(at) ==> at < from && marked(variants[at as int]),
        delegate is None ==> forall|i: int| 0 <= i < from ==> !marked(#[trigger] variants[i]),
    ensures
        split_from(variants, from, delegate, leaves) is Ok ==> {
            &&& forall|i: int| from <= i < variants.len() ==> sound_variant(#[trigger] variants[i])
            &&& forall|i: int, j: int|
                from <= i < j < variants.len() && marked(#[trigger] variants[i]) ==> !marked(
                    #[trigger] variants[j],
                )
            &&& delegate is Some ==> forall|i: int|
                from <= i < variants.len() ==> !marked(#[trigger] variants[i])
            &&& split_from(variants, from, delegate, leaves)->Ok_0.0 matches Some(at) ==> at
                < variants.len() && marked(variants[at as int])
            &&& split_from(variants, from, delegate, leaves)->Ok_0.0 is None ==> forall|i: int|
                0 <= i < variants.len() ==> !marked(#[trigger] variants[i])
        },
    decreases variants.len() - from,
{
    if from < variants.len() {
        let here = variants[from];
        unknown_key_is_unknown(here.keys@, 0);
        if let Ok(is_delegate) = variant_role(here, from as usize) {
            assert(sound_variant(here));
            assert(is_delegate == marked(here));
            if is_delegate {
                if delegate is None {
                    splitting_goes_through(variants, from + 1, Some(from as usize), leaves);
                }
            } else {
                splitting_goes_through(
                    variants,
                    from + 1,
                    delegate,
                    leaves.push(from as usize),
                );
            }
        }
    }
}

/// What composes is sound: a concrete enum, all of whose variants hold one
/// unnamed field and no key but the mark, with one delegate and no other.
pub proof fn what_composes_is_sound(shape: EnumShape)
    requires
        composed(shape) is Ok,
        shape.variants@.len() <= usize::MAX,
    ensures
        shape.is_enum,
        shape.generic_params == 0,
        forall|i: int|
            0 <= i < shape.variants@.len() ==> sound_variant(#[trigger] shape.variants@[i]),
        composed(shape)->Ok_0.delegate < shape.variants@.len(),
        forall|i: int|
            0 <= i < shape.variants@.len() ==> (marked(#[trigger] shape.variants@[i]) <==> i
                == composed(shape)->Ok_0.delegate),
{
    let variants = shape.variants@;
    splitting_goes_through(variants, 0, None, seq![]);
    let at = composed(shape)->Ok_0.delegate as int;
    assert(marked(variants[at]));
    assert forall|i: int| 0 <= i < variants.len() implies (marked(#[trigger] variants[i]) <==> i
        == at) by {
        if i < at && marked(variants[i]) {
            assert(!marked(variants[at]));
        }
        if at < i {
            assert(!marked(variants[i]));
        }
    }
}

proof fn known_keys_are_known(keys: Seq<AttrKey>, from: int)
    requires
        0 <= from,
        forall|k: int| 0 <= k < keys.len() ==> (#[trigger] keys[k]).name@ == "delegate"@,
    ensures
        unknown_key_from(keys, from) is None,
    decreases keys.len() - from,
{
    if from < keys.len() {
        known_keys_are_known(keys, from + 1);
    }
}

proof fn sound_variants_split(
    variants: Seq<VariantShape>,
    from: int,
    delegate: Option<usize>,
    leaves: Seq<usize>,
    at: int,
)
    requires
        0 <= from <= variants.len() <= usize::MAX,
        0 <= at < variants.len(),
        forall|i: int| 0 <= i < variants.len() ==> sound_variant(#[trigger] variants[i]),
        forall|i: int|
            0 <= i < variants.len() ==> (marked(#[trigger] variants[i]) <==> i == at),
        delegate == (if at < from {
            Some(at as usize)
        } else {
            None
        }),
    ensures
        split_from(variants, from, delegate, leaves) matches Ok((found, _)) && found == Some(
            at as usize,
        ),
    decreases variants.len() - from,
{
    if from < variants.len() {
        let here = variants[from];
        assert(sound_variant(here));
        assert(marked(here) <==> from == at);
        known_keys_are_known(here.keys@, 0);
        if from == at {
            sound_variants_split(variants, from + 1, Some(from as usize), leaves, at);
        } else {
            sound_variants_split(variants, from + 1, delegate, leaves.push(from as usize), at);
        }
    }
}

/// What is sound composes: a concrete enum with at most one declared path, all
/// of whose variants hold one unnamed field and no key but the mark, with one
/// delegate, is never refused.
pub proof fn what_is_sound_composes(shape: EnumShape, at: int)
    requires
        shape.is_enum,
        shape.generic_params == 0,
        shape.keys@.len() <= 1,
        forall|k: int| 0 <= k < shape.keys@.len() ==> (#[trigger] shape.keys@[k]).name@ == "crate"@,
        shape.variants@.len() <= usize::MAX,
        0 <= at < shape.variants@.len(),
        forall|i: int|
            0 <= i < shape.variants@.len() ==> sound_variant(#[trigger] shape.variants@[i]),
        forall|i: int|
            0 <= i < shape.variants@.len() ==> (marked(#[trigger] shape.variants@[i]) <==> i == at),
    ensures
        composed(shape) is Ok,
        composed(shape)->Ok_0.delegate == at,
{
    reveal_with_fuel(path_from, 3);
    sound_variants_split(shape.variants@, 0, None, seq![], at);
}

proof fn a_split_keeps_every_other_variant(
    variants: Seq<VariantShape>,
    from: int,
    delegate: Option<usize>,
    leaves: Seq<usize>,
)
    requires
        0 <= from <= variants.len() <= usize::MAX,
        delegate matches Some(at) ==> at < from,
        leaves.len() == from - if delegate is Some {
            1int
        } else {
            0int
        },
        forall|k: int| 0 <= k < leaves.len() ==> #[trigger] leaves[k] < from,
        forall|k: int, l: int| 0 <= k < l < leaves.len() ==> leaves[k] < leaves[l],
        forall|i: usize| i < from ==> (#[trigger] leaves.contains(i) <==> delegate != Some(i)),
    ensures
        split_from(variants, from, delegate, leaves) matches Ok((found, kept)) ==> {
            &&& kept.len() == variants.len() - if found is Some {
                1int
            } else {
                0int
            }
            &&& found matches Some(at) ==> at < variants.len()
            &&& forall|k: int| 0 <= k < kept.len() ==> #[trigger] kept[k] < variants.len()
            &&& forall|k: int, l: int| 0 <= k < l < kept.len() ==> kept[k] < kept[l]
            &&& forall|i: usize|
                i < variants.len() ==> (#[trigger] kept.contains(i) <==> found != Some(i))
        },
    decreases variants.len() - from,
{
    if from < variants.len() {
        let here = from as usize;
        match variant_role(variants[from], here) {
            Err(_) => {},
            Ok(true) => if delegate is None {
                assert forall|i: usize| i < from + 1 implies (#[trigger] leaves.contains(i) <==> Some(
                    here,
                ) != Some(i)) by {
                    if i == here && leaves.contains(i) {
                        let k = choose|k: int| 0 <= k < leaves.len() && leaves[k] == i;
                        assert(leaves[k] < from);
                    }
                }
                a_split_keeps_every_other_variant(variants, from + 1, Some(here), leaves);
            },
            Ok(false) => {
                let more = leaves.push(here);
                assert forall|i: usize| i < from + 1 implies (#[trigger] more.contains(i)
                    <==> delegate != Some(i)) by {
                    if i == here {
                        assert(more[leaves.len() as int] == here);
                    } else if leaves.contains(i) {
                        let k = choose|k: int| 0 <= k < leaves.len() && leaves[k] == i;
                        assert(more[k] == i);
                    } else if more.contains(i) {
                        let k = choose|k: int| 0 <= k < more.len() && more[k] == i;
                        assert(leaves[k] == i);
                    }
                }
                a_split_keeps_every_other_variant(variants, from + 1, delegate, more);
            },
        }
    }
}

/// The leaves of a composition are exactly the variants that are not its
/// delegate, each once and in the order in which they are declared.
pub proof fn the_leaves_are_all_the_other_variants(shape: EnumShape)
    requires
        composed(shape) is Ok,
        shape.variants@.len() <= usize::MAX,
    ensures
        ({
            let found = composed(shape)->Ok_0;
            &&& found.delegate < shape.variants@.len()
            &&& found.leaves.len() == shape.variants@.len() - 1
            &&& forall|k: int, l: int|
                0 <= k < l < found.leaves.len() ==> found.leaves[k] < found.leaves[l]
            &&& forall|k: int|
                0 <= k < found.leaves.len() ==> #[trigger] found.leaves[k] < shape.variants@.len()
                    && found.leaves[k] != found.delegate
            &&& forall|i: usize|
                i < shape.variants@.len() && i != found.delegate ==> #[trigger]
                    found.leaves.contains(i)
        }),
{
    let found = composed(shape)->Ok_0;
    a_split_keeps_every_other_variant(shape.variants@, 0, None, seq![]);
    assert forall|k: int| 0 <= k < found.leaves.len() implies #[trigger] found.leaves[k]
        < shape.variants@.len() && found.leaves[k] != found.delegate by {
        assert(found.leaves.contains(found.leaves[k]));
    }
}

/// A composition reaches the library under the one path that is declared, and
/// under the library's own name where none is.
pub proof fn a_path_is_declared_once(keys: Seq<AttrKey>)
    ensures
        keys.len() == 0 ==> path_from(keys, 0, None) == Ok::<Option<usize>, Defect>(None),
        keys.len() == 1 && keys[0].name@ == "crate"@ ==> path_from(keys, 0, None) == Ok::<
            Option<usize>,
            Defect,
        >(Some(0usize)),
        keys.len() >= 1 && keys[0].name@ != "crate"@ ==> path_from(keys, 0, None) == Err::<
            Option<usize>,
            Defect,
        >(Defect { fault: Fault::UnknownKey, place: Place::Key { key: 0 } }),
        keys.len() >= 2 && keys[0].name@ == "crate"@ && keys[1].name@ == "crate"@ ==> path_from(
            keys,
            0,
            None,
        ) == Err::<Option<usize>, Defect>(
            Defect { fault: Fault::DuplicatePath, place: Place::Key { key: 1 } },
        ),
        keys.len() >= 2 && keys[0].name@ == "crate"@ && keys[1].name@ != "crate"@ ==> path_from(
            keys,
            0,
            None,
        ) == Err::<Option<usize>, Defect>(
            Defect { fault: Fault::UnknownKey, place: Place::Key { key: 1 } },
        ),
        path_words(keys, None) == "::agent_ledger"@,
        forall|key: usize|
            key < keys.len() && (#[trigger] keys[key as int]).path is Some ==> path_words(
                keys,
                Some(key),
            ) == keys[key as int].path->0@,
{
    reveal_with_fuel(path_from, 3);
}

/// A type is looked at before its variants are: what is no enum, what has
/// generic parameters and what declares its path badly is refused for that,
/// in this order, whatever else is wrong with it. What composes carries the
/// path that was found.
pub proof fn a_type_is_refused_before_its_variants(shape: EnumShape)
    ensures
        !shape.is_enum ==> composed(shape) == Err::<Composed, Defect>(
            Defect { fault: Fault::NotAnEnum, place: Place::Name },
        ),
        shape.is_enum && shape.generic_params > 0 ==> composed(shape) == Err::<Composed, Defect>(
            Defect { fault: Fault::Generic, place: Place::Generics },
        ),
        shape.is_enum && shape.generic_params == 0 && path_from(shape.keys@, 0, None) is Err
            ==> composed(shape) == Err::<Composed, Defect>(
            path_from(shape.keys@, 0, None)->Err_0,
        ),
        composed(shape) matches Ok(found) ==> path_from(shape.keys@, 0, None) == Ok::<
            Option<usize>,
            Defect,
        >(found.path_key),
{
}

proof fn a_bad_variant_stops_the_split(
    variants: Seq<VariantShape>,
    from: int,
    delegate: Option<usize>,
    leaves: Seq<usize>,
    at: int,
)
    requires
        0 <= from <= at <= variants.len() <= usize::MAX,
        delegate matches Some(d) ==> d < from && marked(variants[d as int]),
        delegate is None ==> forall|i: int| 0 <= i < from ==> !marked(#[trigger] variants[i]),
        forall|i: int| 0 <= i < at ==> sound_variant(#[trigger] variants[i]),
        forall|i: int, j: int|
            0 <= i < j < at && marked(#[trigger] variants[i]) ==> !marked(#[trigger] variants[j]),
    ensures
        exists|held: Option<usize>, kept: Seq<usize>|
            #![trigger split_from(variants, at, held, kept)]
            split_from(variants, from, delegate, leaves) == split_from(variants, at, held, kept)
                && (held is Some <==> exists|i: int|
                0 <= i < at && marked(#[trigger] variants[i])),
    decreases at - from,
{
    if from < at {
        let here = variants[from];
        assert(sound_variant(here));
        known_keys_are_known(here.keys@, 0);
        if marked(here) {
            if delegate is Some {
                assert(marked(variants[delegate->0 as int]));
                assert(!marked(variants[from]));
            }
            a_bad_variant_stops_the_split(variants, from + 1, Some(from as usize), leaves, at);
        } else {
            a_bad_variant_stops_the_split(
                variants,
                from + 1,
                delegate,
                leaves.push(from as usize),
                at,
            );
        }
    } else {
        assert(split_from(variants, from, delegate, leaves) == split_from(
            variants,
            at,
            delegate,
            leaves,
        ));
        if delegate is Some {
            assert(marked(variants[delegate->0 as int]));
        }
    }
}

/// The first variant that is wrong is the one a shape is refused for: one that
/// does not hold one unnamed field, then one with a key that is not the mark,
/// at that key, then one marked though an earlier one is. Where none is wrong
/// and none is marked, the type is refused for having no delegate.
pub proof fn a_shape_is_refused_for_its_first_bad_variant(shape: EnumShape, at: int)
    requires
        shape.is_enum,
        shape.generic_params == 0,
        path_from(shape.keys@, 0, None) is Ok,
        shape.variants@.len() <= usize::MAX,
        0 <= at <= shape.variants@.len(),
        forall|i: int|
            0 <= i < at ==> (#[trigger] shape.variants@[i]).unnamed_fields == Some(1usize),
        forall|i: int, k: int|
            0 <= i < at && 0 <= k < shape.variants@[i].keys@.len() ==> (
            #[trigger] shape.variants@[i].keys@[k]).name@ == "delegate"@,
        forall|i: int, j: int|
            0 <= i < j < at && (#[trigger] shape.variants@[i]).keys@.len() > 0 ==> (
            #[trigger] shape.variants@[j]).keys@.len() == 0,
    ensures
        ({
            let variant = shape.variants@[at];
            let here = at < shape.variants@.len();
            let held = here && variant.unnamed_fields == Some(1usize);
            &&& here && !held ==> composed(shape) == Err::<Composed, Defect>(
                Defect {
                    fault: Fault::NotOneField,
                    place: Place::Variant { variant: at as usize },
                },
            )
            &&& forall|key: int|
                held && 0 <= key < variant.keys@.len() && key <= usize::MAX && (
                #[trigger] variant.keys@[key]).name@ != "delegate"@ && (forall|k: int|
                    0 <= k < key ==> (#[trigger] variant.keys@[k]).name@ == "delegate"@)
                    ==> composed(shape) == Err::<Composed, Defect>(
                    Defect {
                        fault: Fault::UnknownVariantKey,
                        place: Place::VariantKey { variant: at as usize, key: key as usize },
                    },
                )
            &&& held && variant.keys@.len() > 0 && (forall|k: int|
                0 <= k < variant.keys@.len() ==> (#[trigger] variant.keys@[k]).name@
                    == "delegate"@) && (exists|i: int|
                0 <= i < at && (#[trigger] shape.variants@[i]).keys@.len() > 0) ==> composed(shape)
                == Err::<Composed, Defect>(
                Defect {
                    fault: Fault::SecondDelegate,
                    place: Place::Variant { variant: at as usize },
                },
            )
            &&& !here && (forall|i: int|
                0 <= i < at ==> (#[trigger] shape.variants@[i]).keys@.len() == 0) ==> composed(
                shape,
            ) == Err::<Composed, Defect>(
                Defect { fault: Fault::NoDelegate, place: Place::Name },
            )
        }),
{
    let variants = shape.variants@;
    assert forall|i: int| 0 <= i < at implies sound_variant(#[trigger] variants[i]) by {
        assert forall|k: int| 0 <= k < variants[i].keys@.len() implies (
        #[trigger] variants[i].keys@[k]).name@ == "delegate"@ by {}
    }
    assert forall|i: int, j: int|
        0 <= i < j < at && marked(#[trigger] variants[i]) implies !marked(
        #[trigger] variants[j],
    ) by {
        assert(variants[i].keys@.len() > 0);
    }
    a_bad_variant_stops_the_split(variants, 0, None, seq![], at);
    let (held, kept) = choose|held: Option<usize>, kept: Seq<usize>|
        #![trigger split_from(variants, at, held, kept)]
        split_from(variants, 0, None, seq![]) == split_from(variants, at, held, kept) && (
        held is Some <==> exists|i: int| 0 <= i < at && marked(#[trigger] variants[i]));
    if at < variants.len() {
        let variant = variants[at];
        unknown_key_is_unknown(variant.keys@, 0);
        assert forall|key: int|
            variant.unnamed_fields == Some(1usize) && 0 <= key < variant.keys@.len() && key
                <= usize::MAX && (#[trigger] variant.keys@[key]).name@ != "delegate"@ && (forall|
                k: int,
            |
                0 <= k < key ==> (#[trigger] variant.keys@[k]).name@
                    == "delegate"@) implies composed(shape) == Err::<Composed, Defect>(
            Defect {
                fault: Fault::UnknownVariantKey,
                place: Place::VariantKey { variant: at as usize, key: key as usize },
            },
        ) by {
            assert(unknown_key_from(variant.keys@, 0) == Some(key));
        }
        if exists|i: int| 0 <= i < at && (#[trigger] variants[i]).keys@.len() > 0 {
            let i = choose|i: int| 0 <= i < at && (#[trigger] variants[i]).keys@.len() > 0;
            assert(marked(variants[i]));
        }
    } else {
        if held is Some {
            let i = choose|i: int| 0 <= i < at && marked(#[trigger] variants[i]);
            assert(variants[i].keys@.len() > 0);
        }
    }
}

proof fn a_split_stops_where_its_beginning_does(
    read: Seq<VariantShape>,
    all: Seq<VariantShape>,
    from: int,
    delegate: Option<usize>,
    leaves: Seq<usize>,
)
    requires
        0 <= from,
        read.len() <= all.len(),
        all.take(read.len() as int) == read,
        split_from(read, from, delegate, leaves) is Err,
    ensures
        split_from(all, from, delegate, leaves) == split_from(read, from, delegate, leaves),
    decreases read.len() - from,
{
    if from < read.len() {
        assert(all[from] == all.take(read.len() as int)[from]);
        match variant_role(read[from], from as usize) {
            Ok(true) => if delegate is None {
                a_split_stops_where_its_beginning_does(
                    read,
                    all,
                    from + 1,
                    Some(from as usize),
                    leaves,
                );
            },
            Ok(false) => {
                a_split_stops_where_its_beginning_does(
                    read,
                    all,
                    from + 1,
                    delegate,
                    leaves.push(from as usize),
                );
            },
            Err(_) => {},
        }
    }
}

/// A defect that stands is the defect of the whole: whatever variants follow
/// those that were read, the shape is refused for the same fault at the same
/// place. That a delegate is missing does not stand, since it may follow, nor
/// does it that the last variant read is a second one, since that variant may
/// have more to it; every other defect does.
pub proof fn a_defect_that_stands_is_the_defect_of_the_whole(
    read: EnumShape,
    all: EnumShape,
    defect: Defect,
)
    requires
        read.is_enum == all.is_enum,
        read.generic_params == all.generic_params,
        read.keys@ == all.keys@,
        read.variants@.len() <= all.variants@.len(),
        all.variants@.take(read.variants@.len() as int) == read.variants@,
        read.variants@.len() <= usize::MAX,
        composed(read) == Err::<Composed, Defect>(defect),
    ensures
        stands(defect, read.variants@.len() as usize) ==> composed(all) == Err::<Composed, Defect>(
            defect,
        ),
        !(defect.fault is NoDelegate) && !(defect.fault is SecondDelegate) ==> stands(
            defect,
            read.variants@.len() as usize,
        ),
        defect.fault is NoDelegate ==> !stands(defect, read.variants@.len() as usize),
        defect.fault is SecondDelegate ==> (stands(defect, read.variants@.len() as usize)
            <==> defect.place != (Place::Variant {
            variant: (read.variants@.len() - 1) as usize,
        })),
{
    if split_from(read.variants@, 0, None, seq![]) is Err {
        a_split_stops_where_its_beginning_does(
            read.variants@,
            all.variants@,
            0,
            None,
            seq![],
        );
    }
}

/// The checks are made leaf by leaf. The delegate's comes first; a further leaf
/// leaves all that came before as it was, and adds that it is a leaf, that it
/// is apart from the delegate and from each leaf before it in their order, and
/// that its tables are covered.
pub proof fn a_further_leaf_adds_its_own_checks(leaf: usize)
    ensures
        checks(0) == seq![Check::Delegate],
        ({
            let before = checks(leaf as nat);
            let after = checks(leaf as nat + 1);
            let at = before.len() as int;
            &&& after.len() == at + 3 + leaf
            &&& after.take(at) == before
            &&& after[at] == (Check::Leaf { leaf })
            &&& after[at + 1] == (Check::ApartFromDelegate { leaf })
            &&& forall|earlier: usize|
                earlier < leaf ==> after[at + 2 + earlier] == (#[trigger] apart(leaf, earlier))
            &&& after[at + 2 + leaf] == (Check::Covered { leaf })
        }),
{
    let before = checks(leaf as nat);
    let after = checks(leaf as nat + 1);
    let own = leaf_checks(leaf);
    sibling_checks_are_in_range(leaf, leaf as nat, leaf as nat + 1);
    assert(after == before + own);
    assert(after.take(before.len() as int) =~= before);
    assert forall|earlier: usize| earlier < leaf implies after[before.len() + 2 + earlier] == (
    #[trigger] apart(leaf, earlier)) by {
        assert(own[2 + earlier] == sibling_checks(leaf, leaf as nat)[earlier as int]);
    }
}

/// The check that a leaf is apart from an earlier one.
pub open spec fn apart(leaf: usize, earlier: usize) -> Check {
    Check::ApartFromSibling { leaf, earlier }
}

/// What is apart and covered is coherent: where no stored string is claimed by
/// two of the leaves, or by a leaf and the delegate, and every table of a leaf
/// holds only what the leaf claims, no check fails.
pub proof fn what_is_apart_and_covered_is_coherent(delegate: Seq<&str>, leaves: Seq<LeafClaim>)
    requires
        leaves.len() <= usize::MAX,
        forall|leaf: int, stored: Seq<char>|
            0 <= leaf < leaves.len() && kinds::claims(delegate, stored) ==> !(
            #[trigger] kinds::claims(leaves[leaf].kinds@, stored)),
        forall|leaf: int, other: int, stored: Seq<char>|
            0 <= leaf < other < leaves.len() && #[trigger] kinds::claims(
                leaves[leaf].kinds@,
                stored,
            ) ==> !(#[trigger] kinds::claims(leaves[other].kinds@, stored)),
        forall|leaf: int, table: int, kind: int|
            0 <= leaf < leaves.len() && 0 <= table < leaves[leaf].descriptors@.len() && 0 <= kind
                < leaves[leaf].descriptors@[table].kinds@.len() ==> kinds::claims(
                leaves[leaf].kinds@,
                (#[trigger] leaves[leaf].descriptors@[table].kinds@[kind])@,
            ),
    ensures
        coherent(delegate, leaves),
{
    let list = checks(leaves.len());
    checks_are_in_range(leaves.len(), leaves.len());
    assert forall|i: int| 0 <= i < list.len() implies passes(
        delegate,
        leaves,
        #[trigger] list[i],
    ) by {
        assert(in_range(list[i], leaves.len()));
    }
}

/// A row is read by the first leaf, as they are declared, that claims its
/// type, and by the delegate where none does.
pub proof fn the_first_leaf_that_claims_a_type_reads_it(leaves: Seq<LeafClaim>, stored: Seq<char>)
    ensures
        match arm_from(leaves, 0, stored) {
            Some(leaf) => 0 <= leaf < leaves.len() && kinds::claims(leaves[leaf].kinds@, stored)
                && forall|other: int|
                0 <= other < leaf ==> !kinds::claims((#[trigger] leaves[other]).kinds@, stored),
            None => forall|other: int|
                0 <= other < leaves.len() ==> !kinds::claims(
                    (#[trigger] leaves[other]).kinds@,
                    stored,
                ),
        },
{
    an_arm_claims(leaves, 0, stored);
}

} // verus!
