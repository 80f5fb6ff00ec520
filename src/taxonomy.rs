use vstd::prelude::*;

use crate::app_code::AppCode;
use crate::info::{ErrorInfo, ParseFailure};

verus! {

/// The metadata that an author declares for one variant, as written: each
/// entry may be missing.
pub struct VariantDecl {
    /// The variant's name, as the taxonomy's type spells it.
    pub name: String,
    /// The code suffix; required and non-empty.
    pub code: Option<String>,
    /// The application-level status, as text; required.
    pub app_code: Option<String>,
    /// The client message; optional, empty where missing.
    pub client_msg: Option<String>,
}

/// The metadata that an author declares for one taxonomy, with one entry
/// per variant, in the order of the variants.
pub struct TaxonomyDecl {
    /// The namespace of every code of the taxonomy; required.
    pub prefix: Option<String>,
    pub variants: Vec<VariantDecl>,
}

/// Why a declaration cannot become a taxonomy.
#[derive(Debug, PartialEq, Eq, Structural)]
pub enum DefinitionError {
    /// The taxonomy declares no prefix.
    MissingPrefix,
    /// There are not as many metadata entries as variants.
    VariantCountMismatch,
    /// The entry at `index` is not for the variant at `index`.
    VariantNameMismatch { index: usize },
    /// The entry at `index` declares no code.
    MissingCode { index: usize },
    /// The entry at `index` declares an empty code.
    EmptyCode { index: usize },
    /// The entry at `index` declares no application-level status.
    MissingAppCode { index: usize },
    /// The entries at `first` and `second` give the same full code.
    DuplicateCode { first: usize, second: usize },
}

/// The model of one variant's validated metadata.
pub struct VariantModel {
    pub name: Seq<char>,
    pub code_suffix: Seq<char>,
    pub app_code: Seq<char>,
    pub client_msg: Seq<char>,
}

/// The model of a validated taxonomy.
pub struct TaxonomyModel {
    pub prefix: Seq<char>,
    pub variants: Seq<VariantModel>,
}

impl TaxonomyModel {
    /// The full code of variant `i`: the prefix followed by its code suffix.
    pub open spec fn full_code(self, i: int) -> Seq<char> {
        self.prefix + self.variants[i].code_suffix
    }

    /// No two variants share a full code.
    pub open spec fn codes_unique(self) -> bool {
        forall|i: int, j: int|
            0 <= i < self.variants.len() && 0 <= j < self.variants.len() && i != j
                ==> #[trigger] self.full_code(i) != #[trigger] self.full_code(j)
    }

    /// Every code suffix is non-empty and every full code is unique.
    pub open spec fn wf(self) -> bool {
        &&& forall|i: int| 0 <= i < self.variants.len() ==> #[trigger] self.variants[i].code_suffix.len() > 0
        &&& self.codes_unique()
    }

    /// `info` is what dispatching variant `v` with the diagnostic text `diag` yields.
    pub open spec fn produces<T: AppCode>(self, v: int, diag: Seq<char>, info: ErrorInfo<T>) -> bool {
        &&& T::parsed(self.variants[v].app_code) == Some(info.app_code)
        &&& info.code@ == self.full_code(v)
        &&& info.client_msg@ == self.variants[v].client_msg
        &&& info.server_msg@ == diag
    }
}

/// The text in `o`, or the empty text where there is none.
pub open spec fn text_or_empty(o: Option<String>) -> Seq<char> {
    match o {
        Some(s) => s@,
        None => Seq::empty(),
    }
}

/// The model of one variant's metadata as declared.
pub open spec fn variant_model(v: VariantDecl) -> VariantModel {
    VariantModel {
        name: v.name@,
        code_suffix: text_or_empty(v.code),
        app_code: text_or_empty(v.app_code),
        client_msg: text_or_empty(v.client_msg),
    }
}

/// The model of a taxonomy as declared.
pub open spec fn decl_model(d: TaxonomyDecl) -> TaxonomyModel {
    TaxonomyModel {
        prefix: text_or_empty(d.prefix),
        variants: d.variants@.map_values(|v: VariantDecl| variant_model(v)),
    }
}

/// The entry `v` declares a non-empty code and an application-level status.
pub open spec fn variant_decl_complete(v: VariantDecl) -> bool {
    &&& (v.code matches Some(c) && c@.len() > 0)
    &&& v.app_code is Some
}

/// The declaration `d` describes a usable taxonomy of the variants `names`:
/// it has a prefix, one complete entry per variant in the variants' order,
/// and no two full codes are equal.
pub open spec fn decl_valid(d: TaxonomyDecl, names: Seq<String>) -> bool {
    &&& d.prefix is Some
    &&& d.variants@.len() == names.len()
    &&& forall|i: int|
        #![trigger d.variants@[i]]
        0 <= i < names.len() ==> d.variants@[i].name@ == names[i]@ && variant_decl_complete(
            d.variants@[i],
        )
    &&& decl_model(d).codes_unique()
}

/// The error `e` describes a defect of the declaration `d` of the variants `names`.
pub open spec fn error_holds(e: DefinitionError, d: TaxonomyDecl, names: Seq<String>) -> bool {
    let n = d.variants@.len();
    match e {
        DefinitionError::MissingPrefix => d.prefix is None,
        DefinitionError::VariantCountMismatch => n != names.len(),
        DefinitionError::VariantNameMismatch { index } => index < n && index < names.len()
            && d.variants@[index as int].name@ != names[index as int]@,
        DefinitionError::MissingCode { index } => index < n && d.variants@[index as int].code is None,
        DefinitionError::EmptyCode { index } => index < n && (d.variants@[index as int].code matches Some(
            c,
        ) && c@.len() == 0),
        DefinitionError::MissingAppCode { index } => index < n
            && d.variants@[index as int].app_code is None,
        DefinitionError::DuplicateCode { first, second } => first < second < n
            && decl_model(d).full_code(first as int) == decl_model(d).full_code(second as int),
    }
}

struct Variant {
    name: String,
    code_suffix: String,
    code: String,
    app_code: String,
    client_msg: String,
}

impl Variant {
    spec fn model(self) -> VariantModel {
        VariantModel {
            name: self.name@,
            code_suffix: self.code_suffix@,
            app_code: self.app_code@,
            client_msg: self.client_msg@,
        }
    }
}

/// A validated error taxonomy: a prefix and the metadata of each variant,
/// fixed once defined.
pub struct Taxonomy {
    prefix: String,
    variants: Vec<Variant>,
}

impl View for Taxonomy {
    type V = TaxonomyModel;

    closed spec fn view(&self) -> TaxonomyModel {
        TaxonomyModel {
            prefix: self.prefix@,
            variants: self.variants@.map_values(|v: Variant| v.model()),
        }
    }
}

impl Taxonomy {
    /// The taxonomy's model is well formed and each stored full code is the
    /// prefix followed by that variant's suffix.
    pub closed spec fn wf(&self) -> bool {
        &&& self@.wf()
        &&& forall|i: int| 0 <= i < self.variants@.len() ==> #[trigger] self.variants@[i].code@ == self@.full_code(i)
    }

    /// Validates the declaration `decl` of a taxonomy whose type has the
    /// variants `names`, in order, and builds the taxonomy from it.
    pub fn define(decl: &TaxonomyDecl, names: &Vec<String>) -> (r: Result<Taxonomy, DefinitionError>)
        ensures
            r is Ok <==> decl_valid(*decl, names@),
            r matches Ok(t) ==> t.wf() && t@ == decl_model(*decl),
            r matches Err(e) ==> error_holds(e, *decl, names@),
    {
        let prefix = match &decl.prefix {
            Some(p) => p,
            None => {
                return Err(DefinitionError::MissingPrefix);
            },
        };
        let n = decl.variants.len();
        if n != names.len() {
            return Err(DefinitionError::VariantCountMismatch);
        }
        let ghost model = decl_model(*decl);
        let mut variants: Vec<Variant> = Vec::new();
        let mut i: usize = 0;
        while i < n
            invariant
                n == decl.variants@.len(),
                n == names@.len(),
                decl.prefix == Some(*prefix),
                model == decl_model(*decl),
                i <= n,
                variants@.len() == i,
                forall|k: int|
                    #![trigger decl.variants@[k]]
                    0 <= k < i ==> decl.variants@[k].name@ == names@[k]@
                        && variant_decl_complete(decl.variants@[k]),
                forall|k: int| 0 <= k < i ==> #[trigger] variants@[k].model() == model.variants[k],
                forall|k: int| 0 <= k < i ==> #[trigger] variants@[k].code@ == model.full_code(k),
            decreases n - i,
        {
            let v = &decl.variants[i];
            if !(v.name == names[i]) {
                return Err(DefinitionError::VariantNameMismatch { index: i });
            }
            let code_suffix = match &v.code {
                Some(c) => c,
                None => {
                    return Err(DefinitionError::MissingCode { index: i });
                },
            };
            if code_suffix.as_str().is_empty() {
                return Err(DefinitionError::EmptyCode { index: i });
            }
            let app_code = match &v.app_code {
                Some(a) => a,
                None => {
                    return Err(DefinitionError::MissingAppCode { index: i });
                },
            };
            let client_msg = match &v.client_msg {
                Some(m) => m.clone(),
                None => String::new(),
            };
            let code = prefix.clone().concat(code_suffix.as_str());
            variants.push(
                Variant {
                    name: v.name.clone(),
                    code_suffix: code_suffix.clone(),
                    code,
                    app_code: app_code.clone(),
                    client_msg,
                },
            );
            proof {
                assert(variants@[i as int].model() =~= model.variants[i as int]);
            }
            i = i + 1;
        }
        let mut i: usize = 0;
        while i < n
            invariant
                n == variants@.len(),
                n == decl.variants@.len(),
                n == names@.len(),
                decl.prefix == Some(*prefix),
                model == decl_model(*decl),
                forall|k: int|
                    #![trigger decl.variants@[k]]
                    0 <= k < n ==> decl.variants@[k].name@ == names@[k]@
                        && variant_decl_complete(decl.variants@[k]),
                forall|k: int| 0 <= k < n ==> #[trigger] variants@[k].model() == model.variants[k],
                i <= n,
                forall|k: int| 0 <= k < n ==> #[trigger] variants@[k].code@ == model.full_code(k),
                forall|a: int, b: int|
                    0 <= a < i && a < b < n ==> #[trigger] model.full_code(a) != #[trigger] model.full_code(b),
            decreases n - i,
        {
            let mut j: usize = i + 1;
            while j < n
                invariant
                    n == variants@.len(),
                    n == decl.variants@.len(),
                    model == decl_model(*decl),
                    i < n,
                    i < j <= n,
                    forall|k: int| 0 <= k < n ==> #[trigger] variants@[k].code@ == model.full_code(k),
                    forall|b: int| i < b < j ==> model.full_code(i as int) != #[trigger] model.full_code(b),
                decreases n - j,
            {
                if variants[i].code == variants[j].code {
                    return Err(DefinitionError::DuplicateCode { first: i, second: j });
                }
                j = j + 1;
            }
            i = i + 1;
        }
        let t = Taxonomy { prefix: prefix.clone(), variants };
        proof {
            assert(t@.variants =~= model.variants);
            assert(t@ == model);
            assert forall|a: int, b: int|
                0 <= a < n && 0 <= b < n && a != b implies #[trigger] model.full_code(a)
                != #[trigger] model.full_code(b) by {
                if b < a {
                    assert(model.full_code(b) != model.full_code(a));
                }
            }
        }
        Ok(t)
    }

    /// The number of variants.
    pub fn len(&self) -> (r: usize)
        ensures
            r == self@.variants.len(),
    {
        self.variants.len()
    }

    /// The prefix shared by all codes of the taxonomy.
    pub fn prefix(&self) -> (r: &str)
        ensures
            r@ == self@.prefix,
    {
        self.prefix.as_str()
    }

    /// The full code of the variant at `variant`.
    pub fn code(&self, variant: usize) -> (r: &str)
        requires
            self.wf(),
            variant < self@.variants.len(),
        ensures
            r@ == self@.full_code(variant as int),
    {
        self.variants[variant].code.as_str()
    }

    /// Produces the `ErrorInfo` of an instance of the variant at `variant`
    /// whose own diagnostic text is `diagnostic`; fails where the variant's
    /// application-level status is not a valid value of `T`.
    pub fn dispatch<T: AppCode>(&self, variant: usize, diagnostic: String) -> (r: Result<
        ErrorInfo<T>,
        ParseFailure,
    >)
        requires
            self.wf(),
            variant < self@.variants.len(),
        ensures
            r is Ok <==> T::parsed(self@.variants[variant as int].app_code) is Some,
            r matches Ok(info) ==> self@.produces(variant as int, diagnostic@, info),
            r matches Err(e) ==> e.app_code@ == self@.variants[variant as int].app_code,
    {
        let v = &self.variants[variant];
        ErrorInfo::try_new(v.app_code.as_str(), v.code.clone(), v.client_msg.clone(), diagnostic)
    }
}

/// Within a defined taxonomy, no two variants have the same full code.
pub proof fn lemma_full_codes_unique(t: &Taxonomy, i: int, j: int)
    requires
        t.wf(),
        0 <= i < t@.variants.len(),
        0 <= j < t@.variants.len(),
        i != j,
    ensures
        t@.full_code(i) != t@.full_code(j),
{
}

/// Dispatching any variant yields the code formed by the taxonomy's prefix
/// followed by that variant's code suffix, exactly.
pub proof fn lemma_dispatch_code<T: AppCode>(t: &Taxonomy, v: int, diag: Seq<char>, info: ErrorInfo<T>)
    requires
        t.wf(),
        0 <= v < t@.variants.len(),
        t@.produces(v, diag, info),
    ensures
        info.code@ == t@.prefix + t@.variants[v].code_suffix,
{
}

/// For a variant declared without a client message, the client message of
/// what dispatch yields is the instance's own diagnostic text, which is not
/// empty when that text is not.
pub proof fn lemma_client_msg_falls_back<T: AppCode>(
    t: &Taxonomy,
    v: int,
    diag: Seq<char>,
    info: ErrorInfo<T>,
)
    requires
        t.wf(),
        0 <= v < t@.variants.len(),
        t@.variants[v].client_msg.len() == 0,
        t@.produces(v, diag, info),
    ensures
        info.spec_client_msg() == diag,
        diag.len() > 0 ==> info.spec_client_msg().len() > 0,
{
}

/// For a variant declared with a non-empty client message, the client
/// message of what dispatch yields is that message, whatever the instance's
/// diagnostic text.
pub proof fn lemma_client_msg_declared<T: AppCode>(
    t: &Taxonomy,
    v: int,
    diag: Seq<char>,
    info: ErrorInfo<T>,
)
    requires
        t.wf(),
        0 <= v < t@.variants.len(),
        t@.variants[v].client_msg.len() > 0,
        t@.produces(v, diag, info),
    ensures
        info.spec_client_msg() == t@.variants[v].client_msg,
{
}

} // verus!
