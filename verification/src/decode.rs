//! The catalog of a component, from its binary. The binary is decoded by
//! `wit_component`, in a call that the caller makes and can guard. The
//! decoded value is read here, through the functions marked `external_body`:
//! what this library believes of the decoder's types without proof stands in
//! their contracts. All that follows the reading is verified.

use crate::models::{
    Catalog, ComponentInfo, InterfaceInfo, InterfaceTriple, PackageId, PackageInfo,
};
use crate::seqs::{lemma_present_push, present};
use crate::text::{
    after_last, decimal, decimal_text, has_prefix, starts_with, text_after_last,
};
use vstd::prelude::*;
use vstd::string::StringExecFns;
use wit_component::DecodedWasm;
use wit_parser::{WorldItem, WorldKey};

verus! {

/// The mathematical content of an [`InterfaceFacts`].
pub struct InterfaceFactsView {
    pub name: Option<Seq<char>>,
    pub first_function: Option<Seq<char>>,
    pub package: Option<PackageId>,
}

/// What a decoded binary tells of one of its interfaces: the name that the
/// interface declares, the name of its first function, and the package
/// that owns it. Each may be missing.
#[derive(Debug)]
pub struct InterfaceFacts {
    pub name: Option<String>,
    pub first_function: Option<String>,
    pub package: Option<PackageInfo>,
}

impl View for InterfaceFacts {
    type V = InterfaceFactsView;

    open spec fn view(&self) -> InterfaceFactsView {
        InterfaceFactsView {
            name: self.name.deep_view(),
            first_function: self.first_function.deep_view(),
            package: self.package.deep_view(),
        }
    }
}

impl DeepView for InterfaceFacts {
    type V = InterfaceFactsView;

    open spec fn deep_view(&self) -> InterfaceFactsView {
        self@
    }
}

/// The mathematical content of a [`WorldEntry`].
pub enum WorldEntryView {
    Interface { key: Option<Seq<char>>, index: usize },
    Function,
    Type,
}

/// One item that a world imports or exports: an interface, a function or a
/// type. An interface is given by its number among the interfaces of the
/// binary, with the name under which the world lists it, if it lists it
/// under a name. Only interfaces go into a catalog.
#[derive(Debug)]
pub enum WorldEntry {
    Interface { key: Option<String>, index: usize },
    Function,
    Type,
}

impl View for WorldEntry {
    type V = WorldEntryView;

    open spec fn view(&self) -> WorldEntryView {
        match self {
            WorldEntry::Interface { key, index } => WorldEntryView::Interface {
                key: key.deep_view(),
                index: *index,
            },
            WorldEntry::Function => WorldEntryView::Function,
            WorldEntry::Type => WorldEntryView::Type,
        }
    }
}

impl DeepView for WorldEntry {
    type V = WorldEntryView;

    open spec fn deep_view(&self) -> WorldEntryView {
        self@
    }
}

/// The mathematical content of a [`DecodedWorld`].
pub struct DecodedWorldView {
    pub imports: Seq<WorldEntryView>,
    pub exports: Seq<WorldEntryView>,
}

/// The world of a decoded component: what it imports and what it exports,
/// in the order of the binary.
#[derive(Debug)]
pub struct DecodedWorld {
    pub imports: Vec<WorldEntry>,
    pub exports: Vec<WorldEntry>,
}

impl View for DecodedWorld {
    type V = DecodedWorldView;

    open spec fn view(&self) -> DecodedWorldView {
        DecodedWorldView {
            imports: self.imports.deep_view(),
            exports: self.exports.deep_view(),
        }
    }
}

impl DeepView for DecodedWorld {
    type V = DecodedWorldView;

    open spec fn deep_view(&self) -> DecodedWorldView {
        self@
    }
}

/// The mathematical content of a [`Decoded`].
pub struct DecodedView {
    pub world: Option<DecodedWorldView>,
    pub interfaces: Seq<InterfaceFactsView>,
    pub package: Option<PackageId>,
}

/// What a binary decodes to. A component has a world; a package of
/// interface definitions has none. Both have interfaces, each known by its
/// number, and may have a package that owns them.
#[derive(Debug)]
pub struct Decoded {
    pub world: Option<DecodedWorld>,
    pub interfaces: Vec<InterfaceFacts>,
    pub package: Option<PackageInfo>,
}

impl View for Decoded {
    type V = DecodedView;

    open spec fn view(&self) -> DecodedView {
        DecodedView {
            world: self.world.deep_view(),
            interfaces: self.interfaces.deep_view(),
            package: self.package.deep_view(),
        }
    }
}

/// Why a binary gave no catalog.
#[derive(Debug)]
pub enum DecodeError {
    /// The binary of the named component does not start with the four
    /// bytes that every WebAssembly binary starts with.
    NotWasm(String),
    /// The decoder refused the binary, with this message.
    Malformed(String),
}

/// The decoder's result type, which is opaque here.
#[verifier::external_type_specification]
#[verifier::external_body]
pub struct ExDecodedWasm(DecodedWasm);

/// What a decoded value holds: the items of the world, where the value is
/// a component; the interfaces by their numbers; and the owning package.
pub uninterp spec fn contents(d: DecodedWasm) -> DecodedView;

/// The mathematical content of a [`Binary`].
pub struct BinaryView {
    pub bytes: Seq<u8>,
    pub decoded: Result<DecodedView, Seq<char>>,
}

/// A binary as it reaches this library: its bytes, and what the decoder made
/// of them, which is a decoded value or the words with which the decoder
/// refused. The decoder is run by the caller, who can guard the run.
pub struct Binary {
    pub bytes: Vec<u8>,
    pub decoded: Result<DecodedWasm, String>,
}

impl View for Binary {
    type V = BinaryView;

    open spec fn view(&self) -> BinaryView {
        BinaryView {
            bytes: self.bytes@,
            decoded: match self.decoded {
                Ok(d) => Ok(contents(d)),
                Err(m) => Err(m@),
            },
        }
    }
}

impl DeepView for Binary {
    type V = BinaryView;

    open spec fn deep_view(&self) -> BinaryView {
        self@
    }
}

/// Tells the two variants of `DecodedWasm` apart: the variant `Component`
/// is the one with a world.
#[verifier::external_body]
fn holds_component(d: &DecodedWasm) -> (r: bool)
    ensures
        r == (contents(*d).world is Some),
{
    match d {
        DecodedWasm::Component(..) => true,
        DecodedWasm::WitPackage(..) => false,
    }
}

/// Reads the name of the package that owns what was decoded: for a
/// component, the field `package` of its world; for a package, the package
/// itself. The namespace and the name are those of the `PackageName` under
/// that id in `Resolve::packages`. Both are looked up with `Arena::get`,
/// which gives nothing for an id that the arena does not hold.
#[verifier::external_body]
fn owner_package(d: &DecodedWasm) -> (r: Option<PackageInfo>)
    ensures
        r.deep_view() == contents(*d).package,
{
    let id = match d {
        DecodedWasm::Component(resolve, world) => resolve.worlds.get(*world)?.package,
        DecodedWasm::WitPackage(_, package) => Some(*package),
    };
    let name = &d.resolve().packages.get(id?)?.name;
    Some(PackageInfo { namespace: name.namespace.clone(), name: name.name.clone() })
}

/// The item at place `i` of `items`, or nothing behind their end.
pub open spec fn item_at<T>(items: Seq<T>, i: int) -> Option<T> {
    if 0 <= i < items.len() {
        Some(items[i])
    } else {
        None
    }
}

/// Reads the interface with the number `i`: the one at place `i` of
/// `Resolve::interfaces`, or nothing behind their end. It reads
/// `Interface::name`, the first key of `Interface::functions`, and the
/// name of the package under `Interface::package`, looked up with
/// `Arena::get`.
#[verifier::external_body]
fn interface_at(d: &DecodedWasm, i: usize) -> (r: Option<InterfaceFacts>)
    ensures
        r.deep_view() == item_at(contents(*d).interfaces, i as int),
{
    let (_, def) = d.resolve().interfaces.iter().nth(i)?;
    let name = def.package.and_then(|p| d.resolve().packages.get(p)).map(|p| &p.name);
    let package = name.map(
        |n| PackageInfo { namespace: n.namespace.clone(), name: n.name.clone() },
    );
    let first_function = def.functions.keys().next().cloned();
    Some(InterfaceFacts { name: def.name.clone(), first_function, package })
}

/// Reads the item at place `i` of `World::imports`, by
/// `IndexMap::get_index`, which gives nothing behind the end. The world is
/// looked up with `Arena::get`. Of an interface it reads the name of a
/// `WorldKey::Name` and `Id::index` of the interface's id.
#[verifier::external_body]
fn import_at(d: &DecodedWasm, i: usize) -> (r: Option<WorldEntry>)
    requires
        contents(*d).world is Some,
    ensures
        r.deep_view() == item_at(contents(*d).world->Some_0.imports, i as int),
{
    let DecodedWasm::Component(resolve, world) = d else { return None };
    let (key, item) = resolve.worlds.get(*world)?.imports.get_index(i)?;
    let key = match key {
        WorldKey::Name(n) => Some(n.clone()),
        WorldKey::Interface(_) => None,
    };
    Some(match item {
        WorldItem::Interface { id, .. } => WorldEntry::Interface { key, index: id.index() },
        WorldItem::Function(_) => WorldEntry::Function,
        WorldItem::Type(_) => WorldEntry::Type,
    })
}

/// Reads the item at place `i` of `World::exports`, as `import_at` reads
/// one of `World::imports`.
#[verifier::external_body]
fn export_at(d: &DecodedWasm, i: usize) -> (r: Option<WorldEntry>)
    requires
        contents(*d).world is Some,
    ensures
        r.deep_view() == item_at(contents(*d).world->Some_0.exports, i as int),
{
    let DecodedWasm::Component(resolve, world) = d else { return None };
    let (key, item) = resolve.worlds.get(*world)?.exports.get_index(i)?;
    let key = match key {
        WorldKey::Name(n) => Some(n.clone()),
        WorldKey::Interface(_) => None,
    };
    Some(match item {
        WorldItem::Interface { id, .. } => WorldEntry::Interface { key, index: id.index() },
        WorldItem::Function(_) => WorldEntry::Function,
        WorldItem::Type(_) => WorldEntry::Type,
    })
}

/// The name under which an interface goes into a catalog. The name that the
/// interface declares comes first; then the name under which the world
/// lists it; then the name of its first function, of which only what stands
/// behind the last dot counts where it is a method; last the name of the
/// owning package, a hyphen and the interface's number.
pub open spec fn interface_name(
    facts: InterfaceFactsView,
    key: Option<Seq<char>>,
    index: usize,
    package: PackageId,
) -> Seq<char> {
    match facts.name {
        Some(n) => n,
        None => match key {
            Some(k) => k,
            None => match facts.first_function {
                Some(f) => if has_prefix(f, "[method]"@) {
                    after_last(f, '.')
                } else {
                    f
                },
                None => package.name + "-"@ + decimal(index as nat),
            },
        },
    }
}

/// The interface that a world entry stands for in a catalog: none for a
/// function or a type, and none for an interface that is not among
/// `interfaces` or has no package.
pub open spec fn entry_interface(interfaces: Seq<InterfaceFactsView>, e: WorldEntryView)
    -> Option<InterfaceTriple> {
    match e {
        WorldEntryView::Interface { key, index } => match item_at(interfaces, index as int) {
            Some(facts) => match facts.package {
                Some(p) => Some(
                    InterfaceTriple {
                        namespace: p.namespace,
                        package: p.name,
                        name: interface_name(facts, key, index, p),
                    },
                ),
                None => None,
            },
            None => None,
        },
        _ => None,
    }
}

/// The interfaces that the entries stand for, in the order of the entries.
pub open spec fn interfaces_of(interfaces: Seq<InterfaceFactsView>, entries: Seq<WorldEntryView>)
    -> Seq<InterfaceTriple> {
    present(Seq::new(entries.len(), |i: int| entry_interface(interfaces, entries[i])))
}

/// The catalog that a decoded binary gives: of a component, the interfaces
/// of its world; of a package of definitions, no interface; of both, the
/// owning package.
pub open spec fn catalog_of(d: DecodedView) -> Catalog {
    match d.world {
        Some(w) => Catalog {
            imports: interfaces_of(d.interfaces, w.imports),
            exports: interfaces_of(d.interfaces, w.exports),
            package: d.package,
        },
        None => Catalog { imports: Seq::empty(), exports: Seq::empty(), package: d.package },
    }
}

/// Whether the bytes start as every WebAssembly binary does: a zero byte
/// and the letters `asm`.
pub open spec fn has_magic(bytes: Seq<u8>) -> bool {
    bytes.len() >= 4 && bytes[0] == 0 && bytes[1] == 0x61 && bytes[2] == 0x73 && bytes[3] == 0x6d
}

/// The catalog that a binary gives, if it gives one: its bytes have to
/// start as a WebAssembly binary does, and the decoder has to have accepted
/// them.
pub open spec fn binary_catalog(b: BinaryView) -> Option<Catalog> {
    if !has_magic(b.bytes) {
        None
    } else {
        match b.decoded {
            Ok(d) => Some(catalog_of(d)),
            Err(_) => None,
        }
    }
}

/// Chooses the name under which an interface goes into a catalog.
pub fn choose_interface_name(
    facts: &InterfaceFacts,
    key: &Option<String>,
    index: usize,
    package: &PackageInfo,
) -> (r: String)
    ensures
        r@ == interface_name(facts@, key.deep_view(), index, package@),
{
    match &facts.name {
        Some(n) => n.clone(),
        None => match key {
            Some(k) => k.clone(),
            None => match &facts.first_function {
                Some(f) => if starts_with(f.as_str(), "[method]") {
                    text_after_last(f.as_str(), '.')
                } else {
                    f.clone()
                },
                None => package.name.clone().concat("-").concat(decimal_text(index).as_str()),
            },
        },
    }
}

/// Collects the interfaces that the entries stand for.
pub fn collect_interfaces(interfaces: &Vec<InterfaceFacts>, entries: &Vec<WorldEntry>) -> (r: Vec<
    InterfaceInfo,
>)
    ensures
        r.deep_view() == interfaces_of(interfaces.deep_view(), entries.deep_view()),
{
    let ghost options = Seq::new(
        entries.deep_view().len(),
        |i: int| entry_interface(interfaces.deep_view(), entries.deep_view()[i]),
    );
    let mut list: Vec<InterfaceInfo> = Vec::new();
    let mut i: usize = 0;
    while i < entries.len()
        invariant
            i <= entries.len(),
            options == Seq::new(
                entries.deep_view().len(),
                |i: int| entry_interface(interfaces.deep_view(), entries.deep_view()[i]),
            ),
            list.deep_view() == present(options.take(i as int)),
        decreases entries.len() - i,
    {
        proof {
            assert(options.take(i as int + 1) =~= options.take(i as int).push(options[i as int]));
            lemma_present_push(options.take(i as int), options[i as int]);
        }
        match &entries[i] {
            WorldEntry::Interface { key, index } => {
                if *index < interfaces.len() {
                    let facts = &interfaces[*index];
                    match &facts.package {
                        Some(p) => {
                            let info = InterfaceInfo {
                                name: choose_interface_name(facts, key, *index, p),
                                namespace: p.namespace.clone(),
                                package: p.name.clone(),
                            };
                            list.push(info);
                        },
                        None => {},
                    }
                }
            },
            _ => {},
        }
        i += 1;
    }
    assert(options.take(i as int) =~= options);
    list
}

/// Builds the catalog that a decoded binary gives.
pub fn component_info_of(d: Decoded) -> (r: ComponentInfo)
    ensures
        r@ == catalog_of(d@),
{
    match &d.world {
        Some(w) => ComponentInfo {
            imports: collect_interfaces(&d.interfaces, &w.imports),
            exports: collect_interfaces(&d.interfaces, &w.exports),
            package: d.package,
        },
        None => {
            let r = ComponentInfo { imports: Vec::new(), exports: Vec::new(), package: d.package };
            assert(r@.imports =~= Seq::empty());
            r
        },
    }
}

/// Reads out of a decoded value what it holds.
pub fn read_decoded(d: &DecodedWasm) -> (r: Decoded)
    ensures
        r@ == contents(*d),
{
    let package = owner_package(d);
    let ghost all = contents(*d).interfaces;
    let mut interfaces: Vec<InterfaceFacts> = Vec::new();
    let mut more = true;
    while more
        invariant
            all == contents(*d).interfaces,
            interfaces.len() <= all.len(),
            interfaces.deep_view() == all.take(interfaces.len() as int),
            !more ==> interfaces.len() == all.len(),
        decreases all.len() - interfaces.len(), (if more { 1int } else { 0int }),
    {
        match interface_at(d, interfaces.len()) {
            Some(facts) => {
                interfaces.push(facts);
            },
            None => {
                more = false;
            },
        }
    }
    assert(interfaces.deep_view() =~= all);
    if !holds_component(d) {
        return Decoded { world: None, interfaces, package };
    }
    let ghost world = contents(*d).world->Some_0;
    let mut imports: Vec<WorldEntry> = Vec::new();
    let mut more = true;
    while more
        invariant
            contents(*d).world == Some(world),
            imports.len() <= world.imports.len(),
            imports.deep_view() == world.imports.take(imports.len() as int),
            !more ==> imports.len() == world.imports.len(),
        decreases world.imports.len() - imports.len(), (if more { 1int } else { 0int }),
    {
        match import_at(d, imports.len()) {
            Some(e) => {
                imports.push(e);
            },
            None => {
                more = false;
            },
        }
    }
    assert(imports.deep_view() =~= world.imports);
    let mut exports: Vec<WorldEntry> = Vec::new();
    let mut more = true;
    while more
        invariant
            contents(*d).world == Some(world),
            exports.len() <= world.exports.len(),
            exports.deep_view() == world.exports.take(exports.len() as int),
            !more ==> exports.len() == world.exports.len(),
        decreases world.exports.len() - exports.len(), (if more { 1int } else { 0int }),
    {
        match export_at(d, exports.len()) {
            Some(e) => {
                exports.push(e);
            },
            None => {
                more = false;
            },
        }
    }
    assert(exports.deep_view() =~= world.exports);
    Decoded { world: Some(DecodedWorld { imports, exports }), interfaces, package }
}

/// Whether the bytes start as every WebAssembly binary does.
pub fn starts_as_wasm(bytes: &[u8]) -> (r: bool)
    ensures
        r == has_magic(bytes@),
{
    bytes.len() >= 4 && bytes[0] == 0 && bytes[1] == 0x61 && bytes[2] == 0x73 && bytes[3] == 0x6d
}

/// Builds the catalog that a binary gives, if it gives one.
pub fn read_catalog(binary: &Binary) -> (r: Option<ComponentInfo>)
    ensures
        r.deep_view() == binary_catalog(binary@),
{
    if !starts_as_wasm(binary.bytes.as_slice()) {
        return None;
    }
    match &binary.decoded {
        Ok(d) => Some(component_info_of(read_decoded(d))),
        Err(_) => None,
    }
}

/// Builds the catalog of the component `name` from its binary. Fails where
/// the bytes do not start as a WebAssembly binary does, whatever the decoder
/// made of them; and where the decoder refused them, with the decoder's
/// words.
pub fn process_wasm_file(name: &str, binary: &Binary) -> (r: Result<ComponentInfo, DecodeError>)
    ensures
        match r {
            Ok(info) => binary_catalog(binary@) == Some(info@),
            Err(DecodeError::NotWasm(n)) => !has_magic(binary@.bytes) && n@ == name@,
            Err(DecodeError::Malformed(m)) => has_magic(binary@.bytes) && binary@.decoded
                == Err::<DecodedView, Seq<char>>(m@),
        },
{
    if !starts_as_wasm(binary.bytes.as_slice()) {
        return Err(DecodeError::NotWasm(String::from_str(name)));
    }
    match &binary.decoded {
        Ok(d) => Ok(component_info_of(read_decoded(d))),
        Err(m) => Err(DecodeError::Malformed(m.clone())),
    }
}

} // verus!
