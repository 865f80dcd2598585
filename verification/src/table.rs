//! Interface tables: the fixed order of entry points that an object's table
//! pointer addresses, with the base interface's table embedded as a prefix.

use vstd::prelude::*;
use crate::guid::{GUID, IID};

verus! {

/// An entry point of one of the interface tables.
#[derive(Clone, Copy, Debug, PartialEq, Eq, Structural)]
pub enum Method {
    QueryInterface,
    AddRef,
    Release,
    CreateInstance,
    LockServer,
    GetTypeInfoCount,
    GetTypeInfo,
    GetIDsOfNames,
    Invoke,
    Application,
    Parent,
    NameSpace,
    BrowseForFolder,
    Windows,
    Open,
    Explore,
    MinimizeAll,
    UndoMinimizeALL,
    FileRun,
    CascadeWindows,
    TileVertically,
    TileHorizontally,
    ShutdownWindows,
    Suspend,
    EjectPC,
    SetTime,
    TrayProperties,
    Help,
    FindFiles,
    FindComputer,
    RefreshMenu,
    ControlPanelItem,
}

/// An interface contract whose table layout is known.
#[derive(Clone, Copy, Debug, PartialEq, Eq, Structural)]
pub enum Interface {
    IUnknown,
    IClassFactory,
    IDispatch,
    ITypeInfo,
    IShellDispatch,
}

impl Method {
    /// The name of the entry point in the foreign declarations.
    pub open spec fn name_spec(self) -> Seq<char> {
        match self {
            Method::QueryInterface => "QueryInterface"@,
            Method::AddRef => "AddRef"@,
            Method::Release => "Release"@,
            Method::CreateInstance => "CreateInstance"@,
            Method::LockServer => "LockServer"@,
            Method::GetTypeInfoCount => "GetTypeInfoCount"@,
            Method::GetTypeInfo => "GetTypeInfo"@,
            Method::GetIDsOfNames => "GetIDsOfNames"@,
            Method::Invoke => "Invoke"@,
            Method::Application => "Application"@,
            Method::Parent => "Parent"@,
            Method::NameSpace => "NameSpace"@,
            Method::BrowseForFolder => "BrowseForFolder"@,
            Method::Windows => "Windows"@,
            Method::Open => "Open"@,
            Method::Explore => "Explore"@,
            Method::MinimizeAll => "MinimizeAll"@,
            Method::UndoMinimizeALL => "UndoMinimizeALL"@,
            Method::FileRun => "FileRun"@,
            Method::CascadeWindows => "CascadeWindows"@,
            Method::TileVertically => "TileVertically"@,
            Method::TileHorizontally => "TileHorizontally"@,
            Method::ShutdownWindows => "ShutdownWindows"@,
            Method::Suspend => "Suspend"@,
            Method::EjectPC => "EjectPC"@,
            Method::SetTime => "SetTime"@,
            Method::TrayProperties => "TrayProperties"@,
            Method::Help => "Help"@,
            Method::FindFiles => "FindFiles"@,
            Method::FindComputer => "FindComputer"@,
            Method::RefreshMenu => "RefreshMenu"@,
            Method::ControlPanelItem => "ControlPanelItem"@,
        }
    }

    /// The name of the entry point in the foreign declarations.
    pub fn name(self) -> (name: &'static str)
        ensures
            name@ == self.name_spec(),
    {
        match self {
            Method::QueryInterface => "QueryInterface",
            Method::AddRef => "AddRef",
            Method::Release => "Release",
            Method::CreateInstance => "CreateInstance",
            Method::LockServer => "LockServer",
            Method::GetTypeInfoCount => "GetTypeInfoCount",
            Method::GetTypeInfo => "GetTypeInfo",
            Method::GetIDsOfNames => "GetIDsOfNames",
            Method::Invoke => "Invoke",
            Method::Application => "Application",
            Method::Parent => "Parent",
            Method::NameSpace => "NameSpace",
            Method::BrowseForFolder => "BrowseForFolder",
            Method::Windows => "Windows",
            Method::Open => "Open",
            Method::Explore => "Explore",
            Method::MinimizeAll => "MinimizeAll",
            Method::UndoMinimizeALL => "UndoMinimizeALL",
            Method::FileRun => "FileRun",
            Method::CascadeWindows => "CascadeWindows",
            Method::TileVertically => "TileVertically",
            Method::TileHorizontally => "TileHorizontally",
            Method::ShutdownWindows => "ShutdownWindows",
            Method::Suspend => "Suspend",
            Method::EjectPC => "EjectPC",
            Method::SetTime => "SetTime",
            Method::TrayProperties => "TrayProperties",
            Method::Help => "Help",
            Method::FindFiles => "FindFiles",
            Method::FindComputer => "FindComputer",
            Method::RefreshMenu => "RefreshMenu",
            Method::ControlPanelItem => "ControlPanelItem",
        }
    }

    /// How many arguments the entry point declares besides the object
    /// itself, or `None` where its declaration is left open.
    pub open spec fn arity_spec(self) -> Option<nat> {
        match self {
            Method::QueryInterface => Some(2),
            Method::AddRef => Some(0),
            Method::Release => Some(0),
            Method::CreateInstance => Some(3),
            Method::LockServer => Some(1),
            Method::GetTypeInfoCount => Some(1),
            Method::GetTypeInfo => Some(3),
            Method::GetIDsOfNames => Some(5),
            Method::Invoke => Some(8),
            Method::Application => Some(1),
            Method::Parent => Some(1),
            Method::NameSpace => None,
            Method::BrowseForFolder => None,
            Method::Windows => Some(1),
            Method::Open => None,
            Method::Explore => None,
            Method::ControlPanelItem => Some(1),
            _ => Some(0),
        }
    }

    /// Whether the entry point returns a status code. The two that count
    /// references return the new count instead.
    pub open spec fn returns_status_spec(self) -> bool {
        self != Method::AddRef && self != Method::Release
    }

    /// How many arguments the entry point declares besides the object
    /// itself, or `None` where its declaration is left open.
    pub fn arity(self) -> (count: Option<usize>)
        ensures
            match self.arity_spec() {
                Some(n) => count == Some(n as usize),
                None => count is None,
            },
    {
        match self {
            Method::QueryInterface => Some(2),
            Method::AddRef => Some(0),
            Method::Release => Some(0),
            Method::CreateInstance => Some(3),
            Method::LockServer => Some(1),
            Method::GetTypeInfoCount => Some(1),
            Method::GetTypeInfo => Some(3),
            Method::GetIDsOfNames => Some(5),
            Method::Invoke => Some(8),
            Method::Application => Some(1),
            Method::Parent => Some(1),
            Method::NameSpace => None,
            Method::BrowseForFolder => None,
            Method::Windows => Some(1),
            Method::Open => None,
            Method::Explore => None,
            Method::ControlPanelItem => Some(1),
            _ => Some(0),
        }
    }

    /// Whether the entry point returns a status code.
    #[verifier::when_used_as_spec(returns_status_spec)]
    pub fn returns_status(self) -> (yes: bool)
        ensures
            yes == self.returns_status_spec(),
    {
        match self {
            Method::AddRef => false,
            Method::Release => false,
            _ => true,
        }
    }

    /// The fixed slot of the entry point in every table that holds it.
    pub open spec fn slot_spec(self) -> int {
        match self {
            Method::QueryInterface => 0,
            Method::AddRef => 1,
            Method::Release => 2,
            Method::CreateInstance => 3,
            Method::LockServer => 4,
            Method::GetTypeInfoCount => 3,
            Method::GetTypeInfo => 4,
            Method::GetIDsOfNames => 5,
            Method::Invoke => 6,
            Method::Application => 7,
            Method::Parent => 8,
            Method::NameSpace => 9,
            Method::BrowseForFolder => 10,
            Method::Windows => 11,
            Method::Open => 12,
            Method::Explore => 13,
            Method::MinimizeAll => 14,
            Method::UndoMinimizeALL => 15,
            Method::FileRun => 16,
            Method::CascadeWindows => 17,
            Method::TileVertically => 18,
            Method::TileHorizontally => 19,
            Method::ShutdownWindows => 20,
            Method::Suspend => 21,
            Method::EjectPC => 22,
            Method::SetTime => 23,
            Method::TrayProperties => 24,
            Method::Help => 25,
            Method::FindFiles => 26,
            Method::FindComputer => 27,
            Method::RefreshMenu => 28,
            Method::ControlPanelItem => 29,
        }
    }
}

impl Interface {
    /// The name of the interface in the foreign declarations.
    pub open spec fn name_spec(self) -> Seq<char> {
        match self {
            Interface::IUnknown => "IUnknown"@,
            Interface::IClassFactory => "IClassFactory"@,
            Interface::IDispatch => "IDispatch"@,
            Interface::ITypeInfo => "ITypeInfo"@,
            Interface::IShellDispatch => "IShellDispatch"@,
        }
    }

    /// The name of the interface in the foreign declarations.
    pub fn name(self) -> (name: &'static str)
        ensures
            name@ == self.name_spec(),
    {
        match self {
            Interface::IUnknown => "IUnknown",
            Interface::IClassFactory => "IClassFactory",
            Interface::IDispatch => "IDispatch",
            Interface::ITypeInfo => "ITypeInfo",
            Interface::IShellDispatch => "IShellDispatch",
        }
    }

    /// The interface whose table this one embeds, if any.
    pub open spec fn base_spec(self) -> Option<Interface> {
        match self {
            Interface::IUnknown => None,
            Interface::IClassFactory => Some(Interface::IUnknown),
            Interface::IDispatch => Some(Interface::IUnknown),
            Interface::ITypeInfo => Some(Interface::IUnknown),
            Interface::IShellDispatch => Some(Interface::IDispatch),
        }
    }

    /// How many tables are embedded below this one.
    pub open spec fn depth(self) -> nat {
        match self {
            Interface::IUnknown => 0,
            Interface::IClassFactory => 1,
            Interface::IDispatch => 1,
            Interface::ITypeInfo => 1,
            Interface::IShellDispatch => 2,
        }
    }

    /// The entry points that the interface adds after its base, in table
    /// order.
    pub open spec fn own_spec(self) -> Seq<Method> {
        match self {
            Interface::IUnknown => seq![Method::QueryInterface, Method::AddRef, Method::Release],
            Interface::IClassFactory => seq![Method::CreateInstance, Method::LockServer],
            Interface::IDispatch => seq![
                Method::GetTypeInfoCount,
                Method::GetTypeInfo,
                Method::GetIDsOfNames,
                Method::Invoke,
            ],
            Interface::ITypeInfo => Seq::empty(),
            Interface::IShellDispatch => seq![
                Method::Application,
                Method::Parent,
                Method::NameSpace,
                Method::BrowseForFolder,
                Method::Windows,
                Method::Open,
                Method::Explore,
                Method::MinimizeAll,
                Method::UndoMinimizeALL,
                Method::FileRun,
                Method::CascadeWindows,
                Method::TileVertically,
                Method::TileHorizontally,
                Method::ShutdownWindows,
                Method::Suspend,
                Method::EjectPC,
                Method::SetTime,
                Method::TrayProperties,
                Method::Help,
                Method::FindFiles,
                Method::FindComputer,
                Method::RefreshMenu,
                Method::ControlPanelItem,
            ],
        }
    }

    /// The whole table in slot order: the base interface's table first, then
    /// the interface's own entry points.
    pub open spec fn layout(self) -> Seq<Method>
        decreases self.depth(),
    {
        match self.base_spec() {
            None => self.own_spec(),
            Some(base) => base.layout() + self.own_spec(),
        }
    }

    /// The slot at which the table holds the entry point, if it holds it.
    pub open spec fn slot_of_spec(self, method: Method) -> Option<int> {
        if self.layout().contains(method) {
            Some(self.layout().index_of(method))
        } else {
            None
        }
    }

    /// Whether `ancestor` is this interface or one that it embeds, directly
    /// or through its base.
    pub open spec fn extends_spec(self, ancestor: Interface) -> bool
        decreases self.depth(),
    {
        self == ancestor || match self.base_spec() {
            None => false,
            Some(base) => base.extends_spec(ancestor),
        }
    }

    /// The interface whose table this one embeds, if any.
    #[verifier::when_used_as_spec(base_spec)]
    pub fn base(self) -> (base: Option<Interface>)
        ensures
            base == self.base_spec(),
    {
        match self {
            Interface::IUnknown => None,
            Interface::IClassFactory => Some(Interface::IUnknown),
            Interface::IDispatch => Some(Interface::IUnknown),
            Interface::ITypeInfo => Some(Interface::IUnknown),
            Interface::IShellDispatch => Some(Interface::IDispatch),
        }
    }

    /// The entry points that the interface adds after its base, in table
    /// order.
    pub fn own_methods(self) -> (own: Vec<Method>)
        ensures
            own@ == self.own_spec(),
    {
        let own = match self {
            Interface::IUnknown => vec![Method::QueryInterface, Method::AddRef, Method::Release],
            Interface::IClassFactory => vec![Method::CreateInstance, Method::LockServer],
            Interface::IDispatch => vec![
                Method::GetTypeInfoCount,
                Method::GetTypeInfo,
                Method::GetIDsOfNames,
                Method::Invoke,
            ],
            Interface::ITypeInfo => Vec::new(),
            Interface::IShellDispatch => vec![
                Method::Application,
                Method::Parent,
                Method::NameSpace,
                Method::BrowseForFolder,
                Method::Windows,
                Method::Open,
                Method::Explore,
                Method::MinimizeAll,
                Method::UndoMinimizeALL,
                Method::FileRun,
                Method::CascadeWindows,
                Method::TileVertically,
                Method::TileHorizontally,
                Method::ShutdownWindows,
                Method::Suspend,
                Method::EjectPC,
                Method::SetTime,
                Method::TrayProperties,
                Method::Help,
                Method::FindFiles,
                Method::FindComputer,
                Method::RefreshMenu,
                Method::ControlPanelItem,
            ],
        };
        assert(own@ =~= self.own_spec());
        own
    }

    /// The whole table in slot order.
    pub fn methods(self) -> (table: Vec<Method>)
        ensures
            table@ == self.layout(),
        decreases self.depth(),
    {
        let mut own = self.own_methods();
        match self.base() {
            None => own,
            Some(base) => {
                let mut table = base.methods();
                table.append(&mut own);
                table
            },
        }
    }

    /// The number of slots in the table.
    pub fn slot_count(self) -> (count: usize)
        ensures
            count == self.layout().len(),
    {
        self.methods().len()
    }

    /// The entry point that the table holds at `slot`, or `None` past the
    /// table's end.
    pub fn method_at(self, slot: usize) -> (method: Option<Method>)
        ensures
            method == if slot < self.layout().len() {
                Some(self.layout()[slot as int])
            } else {
                None
            },
    {
        let table = self.methods();
        if slot < table.len() {
            Some(table[slot])
        } else {
            None
        }
    }

    /// The slot at which the table holds the entry point, or `None` if the
    /// interface has no such entry point.
    pub fn slot_of(self, method: Method) -> (slot: Option<usize>)
        ensures
            slot matches Some(k) ==> k < self.layout().len() && self.layout()[k as int] == method,
            slot is None <==> !self.layout().contains(method),
            match slot {
                Some(k) => self.slot_of_spec(method) == Some(k as int),
                None => self.slot_of_spec(method) == None::<int>,
            },
    {
        let table = self.methods();
        let mut k: usize = 0;
        while k < table.len()
            invariant
                k <= table.len(),
                table@ == self.layout(),
                forall|j: int| 0 <= j < k ==> table@[j] != method,
            decreases table.len() - k,
        {
            if table[k] == method {
                proof {
                    lemma_layout_distinct(self);
                    let first = self.layout().index_of(method);
                    assert(self.layout().contains(method));
                    assert(self.layout()[first] == method);
                }
                return Some(k);
            }
            k += 1;
        }
        None
    }

    /// The offset in bytes, from the start of the table, of the word that
    /// holds the entry point: one machine word for each slot before it.
    pub fn offset_of(self, method: Method) -> (offset: Option<usize>)
        ensures
            match self.slot_of_spec(method) {
                Some(k) => offset == Some((k * (usize::BITS as int / 8)) as usize),
                None => offset is None,
            },
    {
        match self.slot_of(method) {
            None => None,
            Some(k) => {
                proof {
                    lemma_fixed_slots(self, k as int);
                }
                let word: usize = (usize::BITS / 8) as usize;
                Some(k * word)
            },
        }
    }

    /// Whether `ancestor` is this interface or one that it embeds, directly
    /// or through its base.
    #[verifier::when_used_as_spec(extends_spec)]
    pub fn extends(self, ancestor: Interface) -> (yes: bool)
        ensures
            yes == self.extends_spec(ancestor),
        decreases self.depth(),
    {
        if self == ancestor {
            true
        } else {
            match self.base() {
                None => false,
                Some(base) => base.extends(ancestor),
            }
        }
    }

    /// The identifier of the interface contract.
    pub open spec fn iid_spec(self) -> IID {
        match self {
            Interface::IUnknown => GUID {
                data1: 0x00000000,
                data2: 0x0000,
                data3: 0x0000,
                data4: [0xC0u8, 0x00, 0x00, 0x00, 0x00, 0x00, 0x00, 0x46],
            },
            Interface::IClassFactory => GUID {
                data1: 0x00000001,
                data2: 0x0000,
                data3: 0x0000,
                data4: [0xC0u8, 0x00, 0x00, 0x00, 0x00, 0x00, 0x00, 0x46],
            },
            Interface::IDispatch => GUID {
                data1: 0x00020400,
                data2: 0x0000,
                data3: 0x0000,
                data4: [0xC0u8, 0x00, 0x00, 0x00, 0x00, 0x00, 0x00, 0x46],
            },
            Interface::ITypeInfo => GUID {
                data1: 0x00020401,
                data2: 0x0000,
                data3: 0x0000,
                data4: [0xC0u8, 0x00, 0x00, 0x00, 0x00, 0x00, 0x00, 0x46],
            },
            Interface::IShellDispatch => GUID {
                data1: 0xD8F015C0,
                data2: 0xC278,
                data3: 0x11CE,
                data4: [0xA4u8, 0x9E, 0x44, 0x45, 0x53, 0x54, 0x00, 0x00],
            },
        }
    }

    /// The identifier of the interface contract.
    #[verifier::when_used_as_spec(iid_spec)]
    pub fn iid(self) -> (id: IID)
        ensures
            id == self.iid_spec(),
    {
        let tail: [u8; 8] = [0xC0u8, 0x00, 0x00, 0x00, 0x00, 0x00, 0x00, 0x46];
        match self {
            Interface::IUnknown => GUID::new(0x00000000, 0x0000, 0x0000, tail),
            Interface::IClassFactory => GUID::new(0x00000001, 0x0000, 0x0000, tail),
            Interface::IDispatch => GUID::new(0x00020400, 0x0000, 0x0000, tail),
            Interface::ITypeInfo => GUID::new(0x00020401, 0x0000, 0x0000, tail),
            Interface::IShellDispatch => GUID::new(
                0xD8F015C0,
                0xC278,
                0x11CE,
                [0xA4u8, 0x9E, 0x44, 0x45, 0x53, 0x54, 0x00, 0x00],
            ),
        }
    }

    /// The interface that an identifier names, if it names a known one.
    pub fn from_iid(id: &IID) -> (interface: Option<Interface>)
        ensures
            match interface {
                Some(found) => found.iid_spec() == *id,
                None => forall|any: Interface| any.iid_spec() != *id,
            },
    {
        if *id == Interface::IUnknown.iid() {
            Some(Interface::IUnknown)
        } else if *id == Interface::IClassFactory.iid() {
            Some(Interface::IClassFactory)
        } else if *id == Interface::IDispatch.iid() {
            Some(Interface::IDispatch)
        } else if *id == Interface::ITypeInfo.iid() {
            Some(Interface::ITypeInfo)
        } else if *id == Interface::IShellDispatch.iid() {
            Some(Interface::IShellDispatch)
        } else {
            None
        }
    }
}

/// Each interface contract has an identifier of its own.
pub proof fn lemma_iid_names_one_interface(a: Interface, b: Interface)
    ensures
        a.iid_spec() == b.iid_spec() <==> a == b,
{
}

/// A derived table embeds its base table as a prefix: it has the base's
/// slots, each with the base's entry point, and its own entry points follow
/// directly.
pub proof fn lemma_base_is_prefix(derived: Interface, base: Interface)
    requires
        derived.base_spec() == Some(base),
    ensures
        derived.layout().len() == base.layout().len() + derived.own_spec().len(),
        derived.layout().subrange(0, base.layout().len() as int) == base.layout(),
        forall|k: int| 0 <= k < base.layout().len() ==> derived.layout()[k] == base.layout()[k],
        forall|i: int|
            0 <= i < derived.own_spec().len() ==> derived.layout()[base.layout().len() + i]
                == derived.own_spec()[i],
{
    assert(derived.layout() == base.layout() + derived.own_spec());
    assert(derived.layout().subrange(0, base.layout().len() as int) =~= base.layout());
}

/// Every table begins with the three operations of the base object: query
/// for an interface, add a reference, release a reference.
pub proof fn lemma_base_object_operations(interface: Interface)
    ensures
        interface.extends_spec(Interface::IUnknown),
        interface.layout().len() >= 3,
        interface.layout()[0] == Method::QueryInterface,
        interface.layout()[1] == Method::AddRef,
        interface.layout()[2] == Method::Release,
        interface.slot_of_spec(Method::QueryInterface) == Some(0int),
        interface.slot_of_spec(Method::AddRef) == Some(1int),
        interface.slot_of_spec(Method::Release) == Some(2int),
{
    reveal_with_fuel(Interface::layout, 3);
    reveal_with_fuel(Interface::extends_spec, 3);
    lemma_slot_of(interface, 0);
    lemma_slot_of(interface, 1);
    lemma_slot_of(interface, 2);
}

/// Over a base of three slots, slot 3 of the derived table holds the first
/// entry point that the derived interface adds.
pub proof fn lemma_first_own_slot(derived: Interface, base: Interface)
    requires
        derived.base_spec() == Some(base),
        base.layout().len() == 3,
        derived.own_spec().len() > 0,
    ensures
        derived.layout()[3] == derived.own_spec()[0],
        derived.slot_of_spec(derived.own_spec()[0]) == Some(3int),
{
    lemma_base_is_prefix(derived, base);
    lemma_slot_of(derived, 3);
}

/// The slot of the entry point that a table holds at slot `k` is `k`.
pub proof fn lemma_slot_of(interface: Interface, k: int)
    requires
        0 <= k < interface.layout().len(),
    ensures
        interface.slot_of_spec(interface.layout()[k]) == Some(k),
{
    lemma_layout_distinct(interface);
    let method = interface.layout()[k];
    assert(interface.layout().contains(method));
    let first = interface.layout().index_of(method);
    assert(interface.layout()[first] == method);
}

/// An entry point of the base interface has the same slot in the derived
/// table as in the base table.
pub proof fn lemma_inherited_slot(derived: Interface, base: Interface, method: Method)
    requires
        derived.base_spec() == Some(base),
        base.layout().contains(method),
    ensures
        derived.slot_of_spec(method) == base.slot_of_spec(method),
        derived.slot_of_spec(method) is Some,
{
    lemma_base_is_prefix(derived, base);
    let k = base.layout().index_of(method);
    assert(base.layout()[k] == method);
    lemma_slot_of(base, k);
    lemma_slot_of(derived, k);
}

/// No entry point occurs twice in a table, so a method names one slot.
pub proof fn lemma_layout_distinct(interface: Interface)
    ensures
        forall|i: int, j: int|
            0 <= i < j < interface.layout().len() ==> interface.layout()[i]
                != interface.layout()[j],
{
    reveal_with_fuel(Interface::layout, 3);
    let table = interface.layout();
    assert forall|i: int, j: int| 0 <= i < j < table.len() implies table[i] != table[j] by {
        lemma_fixed_slots(interface, i);
        lemma_fixed_slots(interface, j);
    }
}

/// Every table that holds an entry point holds it at the entry point's
/// fixed slot.
pub proof fn lemma_fixed_slots(interface: Interface, k: int)
    requires
        0 <= k < interface.layout().len(),
    ensures
        interface.layout()[k].slot_spec() == k,
{
    reveal_with_fuel(Interface::layout, 3);
}

/// The function address that a table instance holds for an entry point,
/// when the instance is read through the layout of `interface`: the word at
/// the entry point's slot.
pub open spec fn resolve_spec(interface: Interface, words: Seq<usize>, method: Method) -> Option<
    usize,
> {
    match interface.slot_of_spec(method) {
        Some(k) => if k < words.len() {
            Some(words[k])
        } else {
            None
        },
        None => None,
    }
}

/// Reading one table instance through the derived layout and through the
/// base layout finds the same function address for every entry point of the
/// base interface; the base view needs no more than the base's slots.
pub proof fn lemma_views_agree(derived: Interface, base: Interface, words: Seq<usize>, method: Method)
    requires
        derived.base_spec() == Some(base),
        base.layout().contains(method),
        words.len() >= base.layout().len(),
    ensures
        resolve_spec(derived, words, method) == resolve_spec(base, words, method),
        resolve_spec(derived, words, method) == resolve_spec(
            base,
            words.take(base.layout().len() as int),
            method,
        ),
        resolve_spec(derived, words, method) is Some,
{
    lemma_inherited_slot(derived, base, method);
    let k = base.layout().index_of(method);
    assert(base.layout()[k] == method);
    lemma_slot_of(base, k);
}

/// One table instance: the function addresses found in its slots, read
/// through the layout of an interface.
#[derive(Debug)]
pub struct InterfaceTable {
    interface: Interface,
    words: Vec<usize>,
}

impl View for InterfaceTable {
    type V = Seq<usize>;

    /// The function addresses in slot order.
    closed spec fn view(&self) -> Seq<usize> {
        self.words@
    }
}

impl InterfaceTable {
    /// The interface through whose layout the instance is read.
    pub closed spec fn interface_spec(&self) -> Interface {
        self.interface
    }

    /// The instance has one word for each slot of the layout.
    pub open spec fn wf(&self) -> bool {
        self@.len() == self.interface_spec().layout().len()
    }

    #[verifier::type_invariant]
    spec fn has_every_slot(self) -> bool {
        self.wf()
    }

    /// Reads `words` through the layout of `interface`. The words must be
    /// exactly the slots of the layout.
    pub fn new(interface: Interface, words: Vec<usize>) -> (table: Option<InterfaceTable>)
        ensures
            table is Some <==> words@.len() == interface.layout().len(),
            table matches Some(t) ==> t.interface_spec() == interface && t@ == words@ && t.wf(),
    {
        if words.len() == interface.slot_count() {
            Some(InterfaceTable { interface, words })
        } else {
            None
        }
    }

    /// The interface through whose layout the instance is read.
    #[verifier::when_used_as_spec(interface_spec)]
    pub fn interface(&self) -> (interface: Interface)
        ensures
            interface == self.interface_spec(),
            self.wf(),
    {
        proof {
            use_type_invariant(self);
        }
        self.interface
    }

    /// The function address in `slot`, or `None` past the table's end.
    pub fn entry(&self, slot: usize) -> (address: Option<usize>)
        ensures
            self.wf(),
            address == if slot < self.interface_spec().layout().len() {
                Some(self@[slot as int])
            } else {
                None
            },
    {
        proof {
            use_type_invariant(self);
        }
        if slot < self.words.len() {
            Some(self.words[slot])
        } else {
            None
        }
    }

    /// The function address of an entry point: the word at the entry point's
    /// slot, or `None` if the interface has no such entry point.
    pub fn resolve(&self, method: Method) -> (address: Option<usize>)
        ensures
            self.wf(),
            address == resolve_spec(self.interface_spec(), self@, method),
            address is Some <==> self.interface_spec().layout().contains(method),
    {
        proof {
            use_type_invariant(self);
        }
        match self.interface.slot_of(method) {
            None => None,
            Some(k) => Some(self.words[k]),
        }
    }

    /// The same instance read through the layout of the base interface: the
    /// leading slots, unchanged. `None` for an interface without a base.
    pub fn as_base(&self) -> (view: Option<InterfaceTable>)
        ensures
            self.wf(),
            match self.interface_spec().base_spec() {
                None => view is None,
                Some(base) => view matches Some(t) && t.interface_spec() == base && t.wf() && t@
                    == self@.take(base.layout().len() as int),
            },
    {
        proof {
            use_type_invariant(self);
        }
        match self.interface.base() {
            None => None,
            Some(base) => {
                proof {
                    lemma_base_is_prefix(self.interface, base);
                }
                let count = base.slot_count();
                let mut words: Vec<usize> = Vec::new();
                let mut k: usize = 0;
                while k < count
                    invariant
                        k <= count,
                        count <= self.words@.len(),
                        words@ == self.words@.take(k as int),
                    decreases count - k,
                {
                    words.push(self.words[k]);
                    assert(self.words@.take(k + 1) =~= self.words@.take(k as int).push(
                        self.words@[k as int],
                    ));
                    k += 1;
                }
                Some(InterfaceTable { interface: base, words })
            },
        }
    }
}

} // verus!
