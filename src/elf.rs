use vstd::prelude::*;
use goblin::elf::Elf;

verus! {

#[verifier::external_type_specification]
#[verifier::external_body]
pub struct ExGoblinError(goblin::error::Error);

/// What the ELF parser reads from `buffer`: `None` when the bytes do not
/// parse as an ELF; otherwise each dynamic symbol in table order, with its
/// name as read from the dynamic string table (`None` past the table's end,
/// `Some(None)` when the bytes there are not a valid string) and its value.
pub uninterp spec fn elf_dynamic_symbols(buffer: Seq<u8>) -> Option<Seq<(Option<Option<Seq<char>>>, u64)>>;

/// Views of the symbols handed out by [`read_dynamic_symbols`].
pub open spec fn raw_symbol_views(v: Seq<(Option<Option<String>>, u64)>) -> Seq<(Option<Option<Seq<char>>>, u64)> {
    Seq::new(
        v.len(),
        |i: int|
            (
                match v[i].0 {
                    None => None,
                    Some(None) => Some(None),
                    Some(Some(s)) => Some(Some(s@)),
                },
                v[i].1,
            ),
    )
}

/// Relies on `goblin::elf::Elf::parse`, then on its `dynsyms` table
/// (`Symtab::iter`) and its `dynstrtab` (`Strtab::get`): the dynamic
/// symbols of the ELF held in `buffer`, each with its name and value, or
/// goblin's error when the bytes do not parse as an ELF.
#[verifier::external_body]
#[allow(deprecated)]
fn read_dynamic_symbols(buffer: &[u8]) -> (r: Result<Vec<(Option<Option<String>>, u64)>, goblin::error::Error>)
    ensures
        r is Err <==> elf_dynamic_symbols(buffer@) is None,
        r matches Ok(v) ==> elf_dynamic_symbols(buffer@) == Some(raw_symbol_views(v@)),
{
    let elf = Elf::parse(buffer)?;
    let names = &elf.dynstrtab;
    Ok(elf.dynsyms.iter().map(|sym| (names.get(sym.st_name).map(|n| n.ok().map(String::from)), sym.st_value)).collect())
}

/// Whether `b` starts with the ELF magic number `\x7fELF`.
pub open spec fn has_elf_magic(b: Seq<u8>) -> bool {
    b.len() >= 4 && b[0] == 0x7fu8 && b[1] == 0x45u8 && b[2] == 0x4cu8 && b[3] == 0x46u8
}

/// Why a symbol's address could not be found.
#[derive(Debug, Clone, Copy, PartialEq, Eq, Structural)]
pub enum ElfError {
    /// The binary could not be parsed, or a symbol name could not be read.
    Malformed,
    /// The binary is not an ELF.
    NotElf,
    /// No dynamic symbol has the name asked for.
    SymbolNotFound,
}

/// How the name of a dynamic symbol reads.
#[derive(Debug)]
pub enum SymbolName {
    /// Its offset lies past the string table.
    Missing,
    /// The string at its offset is not valid.
    Malformed,
    /// The name.
    Name(String),
}

/// A dynamic symbol: its name and its value.
#[derive(Debug)]
pub struct DynamicSymbol {
    pub name: SymbolName,
    pub value: u64,
}

/// The view of a symbol: its name as read (`None` when missing,
/// `Some(None)` when unreadable) and its value.
pub open spec fn symbol_view(sym: DynamicSymbol) -> (Option<Option<Seq<char>>>, u64) {
    (
        match sym.name {
            SymbolName::Missing => None,
            SymbolName::Malformed => Some(None),
            SymbolName::Name(n) => Some(Some(n@)),
        },
        sym.value,
    )
}

/// Views of a list of symbols.
pub open spec fn symbol_views(syms: Seq<DynamicSymbol>) -> Seq<(Option<Option<Seq<char>>>, u64)> {
    Seq::new(syms.len(), |i: int| symbol_view(syms[i]))
}

/// Result of looking `name` up among `syms` in order: the value of the
/// first symbol of that name, unless an unreadable name comes first.
pub open spec fn lookup_spec(syms: Seq<(Option<Option<Seq<char>>>, u64)>, name: Seq<char>) -> Result<u64, ElfError>
    decreases syms.len(),
{
    if syms.len() == 0 {
        Err(ElfError::SymbolNotFound)
    } else {
        match syms[0].0 {
            None => lookup_spec(syms.drop_first(), name),
            Some(None) => Err(ElfError::Malformed),
            Some(Some(n)) => if n == name {
                Ok(syms[0].1)
            } else {
                lookup_spec(syms.drop_first(), name)
            },
        }
    }
}

/// Whether `sym` settles a search for `name`: its name is unreadable, or
/// it is `name`.
pub open spec fn settles(sym: DynamicSymbol, name: Seq<char>) -> bool {
    match sym.name {
        SymbolName::Missing => false,
        SymbolName::Malformed => true,
        SymbolName::Name(n) => n@ == name,
    }
}

/// Looks `sym_name` up among `symbols`, in order. The first symbol that
/// bears the name gives its value; an unreadable name met before it is an
/// error.
pub fn lookup_symbol(symbols: &Vec<DynamicSymbol>, sym_name: &str) -> (r: Result<u64, ElfError>)
    ensures
        r == lookup_spec(symbol_views(symbols@), sym_name@),
        (forall|j: int| 0 <= j < symbols@.len() ==> !settles(#[trigger] symbols@[j], sym_name@)) <==> r == Err::<
            u64,
            ElfError,
        >(ElfError::SymbolNotFound),
        r is Ok || r == Err::<u64, ElfError>(ElfError::Malformed) ==> exists|j: int|
            0 <= j < symbols@.len() && settles(#[trigger] symbols@[j], sym_name@) && (forall|k: int|
                0 <= k < j ==> !settles(#[trigger] symbols@[k], sym_name@)) && match symbols@[j].name {
                SymbolName::Malformed => r == Err::<u64, ElfError>(ElfError::Malformed),
                _ => r == Ok::<u64, ElfError>(symbols@[j].value),
            },
{
    let wanted = sym_name.to_owned();
    let mut i: usize = 0;
    assert(symbol_views(symbols@).subrange(0, symbols@.len() as int) =~= symbol_views(symbols@));
    while i < symbols.len()
        invariant
            i <= symbols@.len(),
            wanted@ == sym_name@,
            forall|k: int| 0 <= k < i ==> !settles(#[trigger] symbols@[k], sym_name@),
            lookup_spec(symbol_views(symbols@), sym_name@) == lookup_spec(
                symbol_views(symbols@).subrange(i as int, symbols@.len() as int),
                sym_name@,
            ),
        decreases symbols@.len() - i,
    {
        let sym = &symbols[i];
        let ghost rest = symbol_views(symbols@).subrange(i as int, symbols@.len() as int);
        assert(rest[0] == symbol_view(symbols@[i as int]));
        assert(rest.drop_first() =~= symbol_views(symbols@).subrange(i + 1, symbols@.len() as int));
        match &sym.name {
            SymbolName::Missing => {},
            SymbolName::Malformed => {
                return Err(ElfError::Malformed);
            },
            SymbolName::Name(n) => {
                if *n == wanted {
                    return Ok(sym.value);
                }
            },
        }
        i = i + 1;
    }
    assert(symbol_views(symbols@).subrange(i as int, symbols@.len() as int).len() == 0);
    Err(ElfError::SymbolNotFound)
}

/// Finds the value of the dynamic symbol `sym_name` in the ELF binary held
/// in `buffer`.
pub fn find_addr_by_sym(buffer: &[u8], sym_name: &str) -> (r: Result<u64, ElfError>)
    ensures
        !has_elf_magic(buffer@) ==> r == Err::<u64, ElfError>(ElfError::NotElf),
        has_elf_magic(buffer@) && elf_dynamic_symbols(buffer@) is None ==> r == Err::<u64, ElfError>(
            ElfError::Malformed,
        ),
        has_elf_magic(buffer@) && elf_dynamic_symbols(buffer@) is Some ==> r == lookup_spec(
            elf_dynamic_symbols(buffer@)->0,
            sym_name@,
        ),
{
    if buffer.len() < 4 || buffer[0] != 0x7f || buffer[1] != 0x45 || buffer[2] != 0x4c || buffer[3] != 0x46 {
        return Err(ElfError::NotElf);
    }
    let raw = match read_dynamic_symbols(buffer) {
        Err(_) => {
            return Err(ElfError::Malformed);
        },
        Ok(raw) => raw,
    };
    let mut symbols: Vec<DynamicSymbol> = Vec::new();
    let mut i: usize = 0;
    while i < raw.len()
        invariant
            i <= raw@.len(),
            symbol_views(symbols@) == raw_symbol_views(raw@).subrange(0, i as int),
        decreases raw@.len() - i,
    {
        let (st_name, value) = &raw[i];
        let name = match st_name {
            None => SymbolName::Missing,
            Some(None) => SymbolName::Malformed,
            Some(Some(s)) => SymbolName::Name(s.clone()),
        };
        let sym = DynamicSymbol { name, value: *value };
        assert(symbol_view(sym) == raw_symbol_views(raw@)[i as int]);
        let ghost before = symbols@;
        symbols.push(sym);
        assert(symbol_views(symbols@) =~= symbol_views(before).push(symbol_view(sym)));
        assert(raw_symbol_views(raw@).subrange(0, i + 1) =~= raw_symbol_views(raw@).subrange(0, i as int).push(
            raw_symbol_views(raw@)[i as int],
        ));
        i = i + 1;
    }
    assert(raw_symbol_views(raw@).subrange(0, i as int) =~= raw_symbol_views(raw@));
    lookup_symbol(&symbols, sym_name)
}

} // verus!
