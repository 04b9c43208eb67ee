//! A named parameter store that many programs can share, bound to each
//! program by resolving names once, at link creation.

use vstd::prelude::*;
use crate::param::{
    LinkErrorView, ParamErrorView, ParamValues, ParamValuesView, ParameterError,
    ParameterLinkError, ShaderParam, TextureParam,
};
use crate::program::{
    BufferHandle, ParamLinkInput, ShaderVar, Signature, signature_of, var_names,
};
use crate::uniform::UniformValue;
use std::rc::Rc;

verus! {

/// A named cell containing an arbitrary value
#[derive(Clone, Debug, PartialEq)]
pub struct NamedCell<T> {
    /// Name
    pub name: String,
    /// Value
    pub value: T,
}

/// Whether some cell of `cells` is called `name`.
pub open spec fn has_cell<T>(cells: Seq<NamedCell<T>>, name: Seq<char>) -> bool {
    exists|i: int| 0 <= i < cells.len() && #[trigger] cells[i].name@ == name
}

/// Whether `i` is the first cell of `cells` called `name`.
pub open spec fn first_match<T>(cells: Seq<NamedCell<T>>, name: Seq<char>, i: int) -> bool {
    &&& 0 <= i < cells.len()
    &&& cells[i].name@ == name
    &&& forall|j: int| 0 <= j < i ==> #[trigger] cells[j].name@ != name
}

/// Whether every name of `names` has a cell.
pub open spec fn all_have_cells<T>(cells: Seq<NamedCell<T>>, names: Seq<Seq<char>>) -> bool {
    forall|k: int| 0 <= k < names.len() ==> has_cell(cells, #[trigger] names[k])
}

/// Whether `names[k]` is the first name of `names` that has no cell.
pub open spec fn first_absent<T>(cells: Seq<NamedCell<T>>, names: Seq<Seq<char>>, k: int) -> bool {
    &&& 0 <= k < names.len()
    &&& !has_cell(cells, names[k])
    &&& forall|j: int| 0 <= j < k ==> has_cell(cells, #[trigger] names[j])
}

/// The first name of `names` that has no cell in `cells`.
pub open spec fn absent_name<T>(cells: Seq<NamedCell<T>>, names: Seq<Seq<char>>) -> Seq<char> {
    names[choose|k: int| first_absent(cells, names, k)]
}

/// Whether `indices` resolves `names`, position by position, to the first
/// cell of that name.
pub open spec fn resolves<T>(
    cells: Seq<NamedCell<T>>,
    names: Seq<Seq<char>>,
    indices: Seq<usize>,
) -> bool {
    &&& indices.len() == names.len()
    &&& forall|k: int| 0 <= k < names.len() ==> first_match(cells, names[k], #[trigger] indices[k] as int)
}

/// The slots after filling from `cells` through `indices`: each slot holds
/// the current value of the cell that its index names.
pub open spec fn read_cells<T>(cells: Seq<NamedCell<T>>, indices: Seq<usize>) -> Seq<Option<T>> {
    Seq::new(indices.len(), |k: int| Some(cells[indices[k] as int].value))
}

/// Whether every index of `indices` names a cell.
pub open spec fn in_range<T>(cells: Seq<NamedCell<T>>, indices: Seq<usize>) -> bool {
    forall|k: int| 0 <= k < indices.len() ==> #[trigger] indices[k] < cells.len()
}

/// A dictionary of parameters, meant to be shared between different programs
#[derive(Clone, Debug, PartialEq)]
pub struct ParamDictionary {
    /// Uniform dictionary
    pub uniforms: Vec<NamedCell<UniformValue>>,
    /// Block dictionary
    pub blocks: Vec<NamedCell<BufferHandle>>,
    /// Texture dictionary
    pub textures: Vec<NamedCell<TextureParam>>,
}

/// An associated link structure for `ParamDictionary` that redirects program
/// input to the relevant dictionary cell.
#[derive(Clone, Debug, PartialEq, Eq)]
pub struct ParamDictionaryLink {
    uniforms: Vec<usize>,
    blocks: Vec<usize>,
    textures: Vec<usize>,
}

/// The cell positions a `ParamDictionaryLink` holds, by kind.
pub struct DictionaryLinkView {
    pub uniforms: Seq<usize>,
    pub blocks: Seq<usize>,
    pub textures: Seq<usize>,
}

impl View for ParamDictionaryLink {
    type V = DictionaryLinkView;

    closed spec fn view(&self) -> DictionaryLinkView {
        DictionaryLinkView {
            uniforms: self.uniforms@,
            blocks: self.blocks@,
            textures: self.textures@,
        }
    }
}

/// The position of the first cell called `name`, if any.
fn find_cell<T>(cells: &Vec<NamedCell<T>>, name: &String) -> (r: Option<usize>)
    ensures
        r matches Some(i) ==> first_match(cells@, name@, i as int),
        r is None ==> !has_cell(cells@, name@),
{
    let mut i: usize = 0;
    while i < cells.len()
        invariant
            i <= cells.len(),
            forall|j: int| 0 <= j < i ==> #[trigger] cells@[j].name@ != name@,
        decreases cells.len() - i,
    {
        if cells[i].name == *name {
            return Some(i);
        }
        i += 1;
    }
    None
}

/// Resolves each declared name to its first cell; on failure, the position
/// of the first declared name that has no cell.
fn resolve<T, V: ShaderVar>(cells: &Vec<NamedCell<T>>, vars: &[V]) -> (r: Result<Vec<usize>, usize>)
    ensures
        r is Ok <==> all_have_cells(cells@, var_names(vars@)),
        r matches Ok(indices) ==> resolves(cells@, var_names(vars@), indices@),
        r matches Err(k) ==> first_absent(cells@, var_names(vars@), k as int),
{
    let ghost names = var_names(vars@);
    let mut indices: Vec<usize> = Vec::new();
    let mut k: usize = 0;
    while k < vars.len()
        invariant
            k <= vars.len(),
            names == var_names(vars@),
            names.len() == vars@.len(),
            indices@.len() == k,
            forall|j: int| 0 <= j < k ==> first_match(cells@, names[j], #[trigger] indices@[j] as int),
        decreases vars.len() - k,
    {
        match find_cell(cells, vars[k].name()) {
            Some(i) => {
                indices.push(i);
            },
            None => {
                assert(names[k as int] == vars@[k as int].var_name());
                assert(!has_cell(cells@, names[k as int]));
                assert forall|j: int| 0 <= j < k implies has_cell(cells@, #[trigger] names[j]) by {
                    assert(cells@[indices@[j] as int].name@ == names[j]);
                }
                return Err(k);
            },
        }
        k += 1;
    }
    assert forall|j: int| 0 <= j < names.len() implies has_cell(cells@, #[trigger] names[j]) by {
        assert(cells@[indices@[j] as int].name@ == names[j]);
    }
    Ok(indices)
}

/// Writes into each slot of `out` the current value of the cell its index names.
fn copy_cells<T: Copy>(cells: &Vec<NamedCell<T>>, indices: &Vec<usize>, out: &mut Vec<Option<T>>)
    requires
        old(out)@.len() == indices@.len(),
        in_range(cells@, indices@),
    ensures
        final(out)@ == read_cells(cells@, indices@),
{
    let mut k: usize = 0;
    while k < indices.len()
        invariant
            k <= indices.len(),
            out@.len() == indices@.len(),
            in_range(cells@, indices@),
            forall|j: int| 0 <= j < k ==> #[trigger] out@[j] == Some(cells@[indices@[j] as int].value),
        decreases indices.len() - k,
    {
        let id = indices[k];
        out.set(k, Some(cells[id].value));
        k += 1;
    }
    assert(out@ =~= read_cells(cells@, indices@));
}


/// Two positions where the first absent name could stand are the same.
proof fn lemma_first_absent_unique<T>(cells: Seq<NamedCell<T>>, names: Seq<Seq<char>>, k: int)
    requires
        first_absent(cells, names, k),
    ensures
        absent_name(cells, names) == names[k],
{
    let c = choose|c: int| first_absent(cells, names, c);
    assert(first_absent(cells, names, c));
    if c < k {
        assert(has_cell(cells, names[c]));
    } else if k < c {
        assert(has_cell(cells, names[k]));
    }
}

impl ParamDictionary {
    /// Whether every declared input of `sig` has a cell of its name.
    pub open spec fn supplies_all(&self, sig: Signature) -> bool {
        &&& all_have_cells(self.uniforms@, sig.uniforms)
        &&& all_have_cells(self.blocks@, sig.blocks)
        &&& all_have_cells(self.textures@, sig.textures)
    }

    /// The first declared input without a cell: uniforms first, then blocks,
    /// then textures, each in declared order.
    pub open spec fn missing_error(&self, sig: Signature) -> LinkErrorView {
        if !all_have_cells(self.uniforms@, sig.uniforms) {
            LinkErrorView::Missing(ParamErrorView::Uniform(absent_name(self.uniforms@, sig.uniforms)))
        } else if !all_have_cells(self.blocks@, sig.blocks) {
            LinkErrorView::Missing(ParamErrorView::Block(absent_name(self.blocks@, sig.blocks)))
        } else {
            LinkErrorView::Missing(ParamErrorView::Texture(absent_name(self.textures@, sig.textures)))
        }
    }

    /// Whether `link` maps each declared input of `sig` to the first cell
    /// of its name.
    pub open spec fn links(&self, link: ParamDictionaryLink, sig: Signature) -> bool {
        &&& resolves(self.uniforms@, sig.uniforms, link@.uniforms)
        &&& resolves(self.blocks@, sig.blocks, link@.blocks)
        &&& resolves(self.textures@, sig.textures, link@.textures)
    }

    /// Whether `out` has one slot per link position and every position
    /// names a cell.
    pub open spec fn fits(&self, link: ParamDictionaryLink, out: ParamValuesView) -> bool {
        &&& out.uniforms.len() == link@.uniforms.len()
        &&& out.blocks.len() == link@.blocks.len()
        &&& out.textures.len() == link@.textures.len()
        &&& in_range(self.uniforms@, link@.uniforms)
        &&& in_range(self.blocks@, link@.blocks)
        &&& in_range(self.textures@, link@.textures)
    }

    /// Every slot holds the current value of the cell that the link names.
    pub open spec fn current_values(&self, link: ParamDictionaryLink) -> ParamValuesView {
        ParamValuesView {
            uniforms: read_cells(self.uniforms@, link@.uniforms),
            blocks: read_cells(self.blocks@, link@.blocks),
            textures: read_cells(self.textures@, link@.textures),
        }
    }

    /// Whether `other` has the same cells, by name and position, whatever
    /// their values.
    pub open spec fn same_names(&self, other: ParamDictionary) -> bool {
        &&& self.uniforms@.len() == other.uniforms@.len()
        &&& self.blocks@.len() == other.blocks@.len()
        &&& self.textures@.len() == other.textures@.len()
        &&& forall|i: int| 0 <= i < self.uniforms@.len()
            ==> #[trigger] self.uniforms@[i].name@ == other.uniforms@[i].name@
        &&& forall|i: int| 0 <= i < self.blocks@.len()
            ==> #[trigger] self.blocks@[i].name@ == other.blocks@[i].name@
        &&& forall|i: int| 0 <= i < self.textures@.len()
            ==> #[trigger] self.textures@[i].name@ == other.textures@[i].name@
    }

    /// Replaces the value of the uniform cell at `index`, keeping its name.
    pub fn set_uniform(&mut self, index: usize, value: UniformValue)
        requires
            index < old(self).uniforms@.len(),
        ensures
            old(self).same_names(*final(self)),
            final(self).uniforms@[index as int].value == value,
            forall|i: int| 0 <= i < old(self).uniforms@.len() && i != index
                ==> #[trigger] final(self).uniforms@[i].value == old(self).uniforms@[i].value,
            final(self).blocks@ == old(self).blocks@,
            final(self).textures@ == old(self).textures@,
    {
        self.uniforms[index].value = value;
    }

    /// Replaces the value of the block cell at `index`, keeping its name.
    pub fn set_block(&mut self, index: usize, value: BufferHandle)
        requires
            index < old(self).blocks@.len(),
        ensures
            old(self).same_names(*final(self)),
            final(self).blocks@[index as int].value == value,
            forall|i: int| 0 <= i < old(self).blocks@.len() && i != index
                ==> #[trigger] final(self).blocks@[i].value == old(self).blocks@[i].value,
            final(self).uniforms@ == old(self).uniforms@,
            final(self).textures@ == old(self).textures@,
    {
        self.blocks[index].value = value;
    }

    /// Replaces the value of the texture cell at `index`, keeping its name.
    pub fn set_texture(&mut self, index: usize, value: TextureParam)
        requires
            index < old(self).textures@.len(),
        ensures
            old(self).same_names(*final(self)),
            final(self).textures@[index as int].value == value,
            forall|i: int| 0 <= i < old(self).textures@.len() && i != index
                ==> #[trigger] final(self).textures@[i].value == old(self).textures@[i].value,
            final(self).uniforms@ == old(self).uniforms@,
            final(self).blocks@ == old(self).blocks@,
    {
        self.textures[index].value = value;
    }

    proof fn lemma_links_fit(&self, link: ParamDictionaryLink, sig: Signature, out: ParamValuesView)
        requires
            self.links(link, sig),
            out.shaped(sig),
        ensures
            self.fits(link, out),
    {
        assert forall|k: int| 0 <= k < link@.uniforms.len() implies #[trigger] link@.uniforms[k] < self.uniforms@.len() by {
            assert(first_match(self.uniforms@, sig.uniforms[k], link@.uniforms[k] as int));
        }
        assert forall|k: int| 0 <= k < link@.blocks.len() implies #[trigger] link@.blocks[k] < self.blocks@.len() by {
            assert(first_match(self.blocks@, sig.blocks[k], link@.blocks[k] as int));
        }
        assert forall|k: int| 0 <= k < link@.textures.len() implies #[trigger] link@.textures[k] < self.textures@.len() by {
            assert(first_match(self.textures@, sig.textures[k], link@.textures[k] as int));
        }
    }

    fn make_link(&self, input: ParamLinkInput) -> (r: Result<ParamDictionaryLink, ParameterLinkError>)
        ensures
            r is Ok <==> self.supplies_all(signature_of(input)),
            r matches Ok(link) ==> self.links(link, signature_of(input)),
            r matches Err(e) ==> e@ == self.missing_error(signature_of(input)),
    {
        let ghost sig = signature_of(input);
        let uniforms = match resolve(&self.uniforms, input.0) {
            Ok(indices) => indices,
            Err(k) => {
                proof {
                    lemma_first_absent_unique(self.uniforms@, sig.uniforms, k as int);
                }
                let name = input.0[k].name.clone();
                return Err(ParameterLinkError::ErrorMissingParameter(ParameterError::ErrorUniform(name)));
            },
        };
        let blocks = match resolve(&self.blocks, input.1) {
            Ok(indices) => indices,
            Err(k) => {
                proof {
                    lemma_first_absent_unique(self.blocks@, sig.blocks, k as int);
                }
                let name = input.1[k].name.clone();
                return Err(ParameterLinkError::ErrorMissingParameter(ParameterError::ErrorBlock(name)));
            },
        };
        let textures = match resolve(&self.textures, input.2) {
            Ok(indices) => indices,
            Err(k) => {
                proof {
                    lemma_first_absent_unique(self.textures@, sig.textures, k as int);
                }
                let name = input.2[k].name.clone();
                return Err(ParameterLinkError::ErrorMissingParameter(ParameterError::ErrorTexture(name)));
            },
        };
        Ok(ParamDictionaryLink { uniforms, blocks, textures })
    }

    fn write_values(&self, link: &ParamDictionaryLink, out: &mut ParamValues)
        requires
            self.fits(*link, old(out)@),
        ensures
            final(out)@ == self.current_values(*link),
    {
        copy_cells(&self.uniforms, &link.uniforms, &mut out.uniforms);
        copy_cells(&self.blocks, &link.blocks, &mut out.blocks);
        copy_cells(&self.textures, &link.textures, &mut out.textures);
    }
}


/// The first cell of a name is unique.
proof fn lemma_first_match_unique<T>(cells: Seq<NamedCell<T>>, name: Seq<char>, i: int, j: int)
    requires
        first_match(cells, name, i),
        first_match(cells, name, j),
    ensures
        i == j,
{
    if i < j {
        assert(cells[i].name@ != name);
    } else if j < i {
        assert(cells[j].name@ != name);
    }
}

/// Whether two links read, for every name that both declare, the same cell
/// and so the same current value.
pub open spec fn reads_agree<T>(
    cells: Seq<NamedCell<T>>,
    names1: Seq<Seq<char>>,
    indices1: Seq<usize>,
    names2: Seq<Seq<char>>,
    indices2: Seq<usize>,
) -> bool {
    forall|k1: int, k2: int|
        0 <= k1 < names1.len() && 0 <= k2 < names2.len() && names1[k1] == names2[k2]
            ==> #[trigger] read_cells(cells, indices1)[k1] == #[trigger] read_cells(cells, indices2)[k2]
}

proof fn lemma_reads_agree<T>(
    cells: Seq<NamedCell<T>>,
    names1: Seq<Seq<char>>,
    indices1: Seq<usize>,
    names2: Seq<Seq<char>>,
    indices2: Seq<usize>,
)
    requires
        resolves(cells, names1, indices1),
        resolves(cells, names2, indices2),
    ensures
        reads_agree(cells, names1, indices1, names2, indices2),
{
    assert forall|k1: int, k2: int|
        0 <= k1 < names1.len() && 0 <= k2 < names2.len() && names1[k1] == names2[k2]
            implies #[trigger] read_cells(cells, indices1)[k1] == #[trigger] read_cells(cells, indices2)[k2] by {
        lemma_first_match_unique(cells, names1[k1], indices1[k1] as int, indices2[k2] as int);
    }
}

proof fn lemma_resolves_same_names<T, U>(
    before: Seq<NamedCell<T>>,
    after: Seq<NamedCell<U>>,
    names: Seq<Seq<char>>,
    indices: Seq<usize>,
)
    requires
        resolves(before, names, indices),
        before.len() == after.len(),
        forall|i: int| 0 <= i < before.len() ==> #[trigger] before[i].name@ == after[i].name@,
    ensures
        resolves(after, names, indices),
{
    assert forall|k: int| 0 <= k < names.len() implies first_match(after, names[k], #[trigger] indices[k] as int) by {
        assert(first_match(before, names[k], indices[k] as int));
        assert forall|j: int| 0 <= j < indices[k] implies #[trigger] after[j].name@ != names[k] by {
            assert(before[j].name@ != names[k]);
        }
    }
}

/// A link is a function of the declared names and the cell names alone:
/// whenever the cell values change but the names stay (as `set_uniform`,
/// `set_block` and `set_texture` do), every link made before still binds,
/// and two links, made for two programs, that fill from the dictionary
/// write the same current value for every input name that both programs
/// declare.
pub proof fn lemma_links_share_cells(
    before: &ParamDictionary,
    after: &ParamDictionary,
    link1: ParamDictionaryLink,
    sig1: Signature,
    link2: ParamDictionaryLink,
    sig2: Signature,
    out1: ParamValuesView,
    out2: ParamValuesView,
)
    requires
        before.binds(link1, sig1),
        before.binds(link2, sig2),
        before.same_names(*after),
    ensures
        after.binds(link1, sig1),
        after.binds(link2, sig2),
        reads_agree(after.uniforms@, sig1.uniforms, link1@.uniforms, sig2.uniforms, link2@.uniforms),
        reads_agree(after.blocks@, sig1.blocks, link1@.blocks, sig2.blocks, link2@.blocks),
        reads_agree(after.textures@, sig1.textures, link1@.textures, sig2.textures, link2@.textures),
        after.filled(link1, out1).uniforms == read_cells(after.uniforms@, link1@.uniforms),
        after.filled(link2, out2).uniforms == read_cells(after.uniforms@, link2@.uniforms),
        after.filled(link1, out1).blocks == read_cells(after.blocks@, link1@.blocks),
        after.filled(link2, out2).blocks == read_cells(after.blocks@, link2@.blocks),
        after.filled(link1, out1).textures == read_cells(after.textures@, link1@.textures),
        after.filled(link2, out2).textures == read_cells(after.textures@, link2@.textures),
{
    lemma_resolves_same_names(before.uniforms@, after.uniforms@, sig1.uniforms, link1@.uniforms);
    lemma_resolves_same_names(before.uniforms@, after.uniforms@, sig2.uniforms, link2@.uniforms);
    lemma_resolves_same_names(before.blocks@, after.blocks@, sig1.blocks, link1@.blocks);
    lemma_resolves_same_names(before.blocks@, after.blocks@, sig2.blocks, link2@.blocks);
    lemma_resolves_same_names(before.textures@, after.textures@, sig1.textures, link1@.textures);
    lemma_resolves_same_names(before.textures@, after.textures@, sig2.textures, link2@.textures);
    lemma_reads_agree(after.uniforms@, sig1.uniforms, link1@.uniforms, sig2.uniforms, link2@.uniforms);
    lemma_reads_agree(after.blocks@, sig1.blocks, link1@.blocks, sig2.blocks, link2@.blocks);
    lemma_reads_agree(after.textures@, sig1.textures, link1@.textures, sig2.textures, link2@.textures);
}

/// A fill writes the same contents into every buffer that the link fits,
/// fresh or already filled: filling twice with no cell changed in between
/// gives the same contents both times.
pub proof fn lemma_fill_repeatable(
    dict: &ParamDictionary,
    link: ParamDictionaryLink,
    a: ParamValuesView,
    b: ParamValuesView,
)
    requires
        dict.fills(link, a),
        dict.fills(link, b),
    ensures
        dict.filled(link, a) == dict.filled(link, b),
        dict.fills(link, dict.filled(link, a)),
        dict.filled(link, dict.filled(link, a)) == dict.filled(link, a),
{
}

/// A program that declares a uniform with no cell of its name, all
/// uniforms before it having one, is refused, and the error names that
/// uniform as missing.
pub proof fn lemma_absent_uniform_refused(dict: &ParamDictionary, sig: Signature, k: int)
    requires
        0 <= k < sig.uniforms.len(),
        !has_cell(dict.uniforms@, sig.uniforms[k]),
        forall|j: int| 0 <= j < k ==> has_cell(dict.uniforms@, #[trigger] sig.uniforms[j]),
    ensures
        !dict.supplies(sig),
        dict.link_error(sig) == LinkErrorView::Missing(ParamErrorView::Uniform(sig.uniforms[k])),
{
    lemma_first_absent_unique(dict.uniforms@, sig.uniforms, k);
}

impl<'a> ShaderParam<ParamDictionaryLink> for &'a ParamDictionary {
    open spec fn supplies(&self, sig: Signature) -> bool {
        (**self).supplies_all(sig)
    }

    open spec fn link_error(&self, sig: Signature) -> LinkErrorView {
        (**self).missing_error(sig)
    }

    open spec fn binds(&self, link: ParamDictionaryLink, sig: Signature) -> bool {
        (**self).links(link, sig)
    }

    open spec fn fills(&self, link: ParamDictionaryLink, out: ParamValuesView) -> bool {
        (**self).fits(link, out)
    }

    open spec fn filled(&self, link: ParamDictionaryLink, out: ParamValuesView) -> ParamValuesView {
        (**self).current_values(link)
    }

    proof fn lemma_binds_fills(&self, link: ParamDictionaryLink, sig: Signature, out: ParamValuesView) {
        (**self).lemma_links_fit(link, sig, out);
    }

    fn create_link(&self, input: ParamLinkInput) -> (r: Result<ParamDictionaryLink, ParameterLinkError>) {
        (**self).make_link(input)
    }

    fn fill_params(&self, link: &ParamDictionaryLink, out: &mut ParamValues) {
        (**self).write_values(link, out)
    }
}

/// A dictionary shared by reference counting binds exactly as the
/// dictionary itself.
impl ShaderParam<ParamDictionaryLink> for Rc<ParamDictionary> {
    open spec fn supplies(&self, sig: Signature) -> bool {
        (**self).supplies_all(sig)
    }

    open spec fn link_error(&self, sig: Signature) -> LinkErrorView {
        (**self).missing_error(sig)
    }

    open spec fn binds(&self, link: ParamDictionaryLink, sig: Signature) -> bool {
        (**self).links(link, sig)
    }

    open spec fn fills(&self, link: ParamDictionaryLink, out: ParamValuesView) -> bool {
        (**self).fits(link, out)
    }

    open spec fn filled(&self, link: ParamDictionaryLink, out: ParamValuesView) -> ParamValuesView {
        (**self).current_values(link)
    }

    proof fn lemma_binds_fills(&self, link: ParamDictionaryLink, sig: Signature, out: ParamValuesView) {
        (**self).lemma_links_fit(link, sig, out);
    }

    fn create_link(&self, input: ParamLinkInput) -> (r: Result<ParamDictionaryLink, ParameterLinkError>) {
        (**self).make_link(input)
    }

    fn fill_params(&self, link: &ParamDictionaryLink, out: &mut ParamValues) {
        (**self).write_values(link, out)
    }
}

} // verus!
