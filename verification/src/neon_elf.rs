//! Deployment parameters of the program.
//!
//! The program's binary carries its parameters as dynamic symbols whose
//! names begin with `NEON`; the value of a parameter is the text that the
//! symbol points at inside the binary.
use crate::types::address::{bytes_equal, Pubkey};
use crate::types::bytes::{starts_with, str_from_utf8};
use vstd::prelude::*;
use vstd::utf8::{decode_utf8, encode_utf8, encode_utf8_decode_utf8, valid_utf8};

verus! {

/// A dynamic symbol of the binary: its name, and the place and size of
/// what it points at.
#[derive(Debug, Clone, PartialEq, Eq)]
pub struct ElfSymbol {
    pub name: String,
    pub value: u64,
    pub size: u64,
}

/// Why a symbol yields no parameter.
#[derive(Debug, Clone, Copy, PartialEq, Eq, Structural)]
pub enum ElfParameterError {
    /// The symbol at this index points outside the binary.
    OutOfBounds(usize),
    /// What the symbol at this index points at is not UTF-8 text.
    InvalidText(usize),
}

/// The UTF-8 bytes of `NEON`.
pub open spec fn parameter_prefix() -> Seq<u8> {
    seq![0x4eu8, 0x45u8, 0x4fu8, 0x4eu8]
}

/// Whether a symbol names a parameter.
pub open spec fn is_parameter(name: Seq<char>) -> bool {
    starts_with(encode_utf8(name), parameter_prefix())
}

/// Whether what a symbol points at lies inside a binary of `end` bytes,
/// short of its last byte.
pub open spec fn symbol_in_bounds(value: u64, size: u64, end: nat) -> bool {
    value + size < end
}

/// The map that a sequence of insertions builds: a later entry replaces
/// an earlier one of the same name.
pub open spec fn parameters_map(entries: Seq<(Seq<char>, Seq<char>)>) -> Map<
    Seq<char>,
    Seq<char>,
>
    decreases entries.len(),
{
    if entries.len() == 0 {
        Map::empty()
    } else {
        parameters_map(entries.drop_last()).insert(entries.last().0, entries.last().1)
    }
}

/// The names and values of a list of entries.
pub open spec fn entries_view(entries: Seq<(String, String)>) -> Seq<(Seq<char>, Seq<char>)> {
    Seq::new(entries.len(), |i: int| (entries[i].0@, entries[i].1@))
}

/// The first symbol, among the first `count`, that names a parameter and
/// has no value in the binary, with the reason.
pub open spec fn first_failure(symbols: Seq<ElfSymbol>, data: Seq<u8>, count: nat) -> Option<
    ElfParameterError,
>
    decreases count,
{
    if count == 0 {
        None
    } else {
        let i = (count - 1) as nat;
        match first_failure(symbols, data, i) {
            Some(e) => Some(e),
            None => symbol_failure(symbols[i as int], data, i),
        }
    }
}

/// Why the symbol at `index` has no value in the binary, if it names a
/// parameter and has none.
pub open spec fn symbol_failure(symbol: ElfSymbol, data: Seq<u8>, index: nat) -> Option<
    ElfParameterError,
> {
    if !is_parameter(symbol.name@) {
        None
    } else if !symbol_in_bounds(symbol.value, symbol.size, data.len()) {
        Some(ElfParameterError::OutOfBounds(index as usize))
    } else if !valid_utf8(symbol_bytes(symbol, data)) {
        Some(ElfParameterError::InvalidText(index as usize))
    } else {
        None
    }
}

/// The bytes that a symbol points at.
pub open spec fn symbol_bytes(symbol: ElfSymbol, data: Seq<u8>) -> Seq<u8> {
    data.subrange(symbol.value as int, symbol.value + symbol.size)
}

/// The entries that the first `count` symbols insert, in order.
pub open spec fn parameter_entries(symbols: Seq<ElfSymbol>, data: Seq<u8>, count: nat) -> Seq<
    (Seq<char>, Seq<char>),
>
    decreases count,
{
    if count == 0 {
        Seq::empty()
    } else {
        let i = (count - 1) as nat;
        let before = parameter_entries(symbols, data, i);
        if is_parameter(symbols[i as int].name@) {
            let symbol = symbols[i as int];
            before.push((symbol.name@, decode_utf8(symbol_bytes(symbol, data))))
        } else {
            before
        }
    }
}

/// The deployment parameters of a program, by name.
pub struct CachedElfParams {
    elf_params: Vec<(String, String)>,
}

impl View for CachedElfParams {
    type V = Map<Seq<char>, Seq<char>>;

    closed spec fn view(&self) -> Map<Seq<char>, Seq<char>> {
        parameters_map(entries_view(self.elf_params@))
    }
}

/// Once a symbol has failed, reading further changes nothing.
proof fn lemma_first_failure_stable(symbols: Seq<ElfSymbol>, data: Seq<u8>, at: nat, count: nat)
    requires
        at <= count,
        first_failure(symbols, data, at) is Some,
    ensures
        first_failure(symbols, data, count) == first_failure(symbols, data, at),
    decreases count,
{
    if at < count {
        lemma_first_failure_stable(symbols, data, at, (count - 1) as nat);
    }
}

/// Looking a name up after one more insertion.
proof fn lemma_parameters_map_step(entries: Seq<(Seq<char>, Seq<char>)>, count: int)
    requires
        0 < count <= entries.len(),
    ensures
        parameters_map(entries.take(count)) == parameters_map(entries.take(count - 1)).insert(
            entries[count - 1].0,
            entries[count - 1].1,
        ),
{
    assert(entries.take(count).drop_last() =~= entries.take(count - 1));
}

impl CachedElfParams {
    /// No parameters.
    pub fn empty() -> (r: Self)
        ensures
            r@ == Map::<Seq<char>, Seq<char>>::empty(),
    {
        let r = CachedElfParams { elf_params: Vec::new() };
        r
    }

    /// The parameters that a list of insertions builds.
    pub fn new(elf_params: Vec<(String, String)>) -> (r: Self)
        ensures
            r@ == parameters_map(entries_view(elf_params@)),
    {
        CachedElfParams { elf_params }
    }

    /// Sets a parameter, replacing an earlier value of the same name.
    pub fn insert(&mut self, name: String, value: String)
        ensures
            final(self)@ == old(self)@.insert(name@, value@),
    {
        self.elf_params.push((name, value));
        proof {
            let entries = entries_view(self.elf_params@);
            assert(entries.drop_last() =~= entries_view(old(self).elf_params@));
        }
    }

    /// The value of a parameter, where it is set.
    pub fn get(&self, param_name: &str) -> (r: Option<&String>)
        ensures
            r is Some <==> self@.contains_key(param_name@),
            r matches Some(value) ==> self@[param_name@] == value@,
    {
        let ghost entries = entries_view(self.elf_params@);
        let mut i = self.elf_params.len();
        assert(entries.take(i as int) =~= entries);
        while i > 0
            invariant
                i <= self.elf_params@.len(),
                entries == entries_view(self.elf_params@),
                self@ == parameters_map(entries),
                self@.contains_key(param_name@) == parameters_map(
                    entries.take(i as int),
                ).contains_key(param_name@),
                self@.contains_key(param_name@) ==> self@[param_name@] == parameters_map(
                    entries.take(i as int),
                )[param_name@],
            decreases i,
        {
            proof {
                lemma_parameters_map_step(entries, i as int);
            }
            i -= 1;
            let entry = &self.elf_params[i];
            if bytes_equal(entry.0.as_str().as_bytes(), param_name.as_bytes()) {
                proof {
                    encode_utf8_decode_utf8(entry.0@);
                    encode_utf8_decode_utf8(param_name@);
                }
                return Some(&entry.1);
            }
        }
        None
    }
}

/// Reads the parameters out of a binary, given its dynamic symbols: each
/// symbol whose name begins with `NEON` sets the parameter of that name to
/// the text that it points at, a later symbol replacing an earlier one of
/// the same name. A symbol that points outside the binary, or at bytes
/// that are no text, ends the reading.
pub fn read_elf_parameters(symbols: &[ElfSymbol], program_data: &[u8]) -> (r: core::result::Result<
    Vec<(String, String)>,
    ElfParameterError,
>)
    ensures
        match r {
            Ok(entries) => first_failure(symbols@, program_data@, symbols@.len()) is None
                && entries_view(entries@) == parameter_entries(
                symbols@,
                program_data@,
                symbols@.len(),
            ),
            Err(e) => first_failure(symbols@, program_data@, symbols@.len()) == Some(e),
        },
{
    let mut result: Vec<(String, String)> = Vec::new();
    let end = program_data.len();
    let mut i: usize = 0;
    while i < symbols.len()
        invariant
            end == program_data@.len(),
            i <= symbols@.len(),
            first_failure(symbols@, program_data@, i as nat) is None,
            entries_view(result@) == parameter_entries(symbols@, program_data@, i as nat),
        decreases symbols@.len() - i,
    {
        let symbol = &symbols[i];
        let name_bytes = symbol.name.as_str().as_bytes();
        let named = name_bytes.len() >= 4 && bytes_equal(
            vstd::slice::slice_subrange(name_bytes, 0, 4),
            &[0x4e, 0x45, 0x4f, 0x4e],
        );
        if named {
            let to = match symbol.value.checked_add(symbol.size) {
                Some(to) => to,
                None => {
                    proof {
                        lemma_first_failure_stable(
                            symbols@,
                            program_data@,
                            (i + 1) as nat,
                            symbols@.len(),
                        );
                    }
                    return Err(ElfParameterError::OutOfBounds(i));
                },
            };
            if to >= end as u64 {
                proof {
                    lemma_first_failure_stable(
                        symbols@,
                        program_data@,
                        (i + 1) as nat,
                        symbols@.len(),
                    );
                }
                return Err(ElfParameterError::OutOfBounds(i));
            }
            let buf = vstd::slice::slice_subrange(
                program_data,
                symbol.value as usize,
                to as usize,
            );
            match str_from_utf8(buf) {
                Some(text) => {
                    let value = text.to_owned();
                    result.push((symbol.name.clone(), value));
                    proof {
                        encode_utf8_decode_utf8(value@);
                    }
                },
                None => {
                    proof {
                        lemma_first_failure_stable(
                            symbols@,
                            program_data@,
                            (i + 1) as nat,
                            symbols@.len(),
                        );
                    }
                    return Err(ElfParameterError::InvalidText(i));
                },
            }
        }
        i += 1;
    }
    Ok(result)
}

/// The loaders that a program can be deployed with, by their keys.
#[derive(Debug, Clone, Copy, PartialEq, Eq)]
pub struct Loaders {
    pub bpf_loader: Pubkey,
    pub bpf_loader_deprecated: Pubkey,
    pub bpf_loader_upgradeable: Pubkey,
}

/// What the upgradeable loader keeps at the start of an account.
#[derive(Debug, Clone, Copy, PartialEq, Eq)]
pub enum LoaderState {
    Uninitialized,
    /// A buffer: the binary follows the state.
    Buffer { authority_address: Option<Pubkey> },
    /// A program: its binary is in another account.
    Program { programdata_address: Pubkey },
    /// The data of a program: the binary follows the state.
    ProgramData { slot: u64, upgrade_authority_address: Option<Pubkey> },
}

/// Why an account yields no binary.
#[derive(Debug, Clone, Copy, PartialEq, Eq)]
pub enum ProgramDataError {
    /// The account belongs to no loader.
    AccountIsNotBpf,
    /// The account of the upgradeable loader is neither a program nor a
    /// buffer.
    AccountIsNotUpgradeable,
    /// The account that a program points at does not hold its data.
    InvalidAssociatedPda,
}

/// Where the binary of a program is.
#[derive(Debug, Clone, Copy, PartialEq, Eq)]
pub enum ProgramLocation {
    /// In this account, from `offset` on; `authority` may replace it.
    Here { authority: Option<Pubkey>, offset: usize },
    /// In the account with this key.
    Elsewhere { programdata_address: Pubkey },
}

/// How many bytes of state stand before the binary in a buffer.
pub const BUFFER_METADATA_LEN: usize = 37;

/// How many bytes of state stand before the binary in the data of a
/// program.
pub const PROGRAMDATA_METADATA_LEN: usize = 45;

/// Where the binary of the program in an account is, given the owner of
/// the account and what the upgradeable loader keeps in it, if that can
/// be read.
pub open spec fn program_location(
    loaders: Loaders,
    owner: Pubkey,
    state: Option<LoaderState>,
) -> core::result::Result<ProgramLocation, ProgramDataError> {
    if owner@ == loaders.bpf_loader@ || owner@ == loaders.bpf_loader_deprecated@ {
        Ok(ProgramLocation::Here { authority: None, offset: 0 })
    } else if owner@ == loaders.bpf_loader_upgradeable@ {
        match state {
            Some(LoaderState::Program { programdata_address }) => Ok(
                ProgramLocation::Elsewhere { programdata_address },
            ),
            Some(LoaderState::Buffer { authority_address }) => Ok(
                ProgramLocation::Here { authority: authority_address, offset: BUFFER_METADATA_LEN },
            ),
            _ => Err(ProgramDataError::AccountIsNotUpgradeable),
        }
    } else {
        Err(ProgramDataError::AccountIsNotBpf)
    }
}

/// Finds the binary of the program in an account.
pub fn locate_program(loaders: &Loaders, owner: &Pubkey, state: Option<LoaderState>) -> (r:
    core::result::Result<ProgramLocation, ProgramDataError>)
    ensures
        r == program_location(*loaders, *owner, state),
{
    if *owner == loaders.bpf_loader || *owner == loaders.bpf_loader_deprecated {
        Ok(ProgramLocation::Here { authority: None, offset: 0 })
    } else if *owner == loaders.bpf_loader_upgradeable {
        match state {
            Some(LoaderState::Program { programdata_address }) => Ok(
                ProgramLocation::Elsewhere { programdata_address },
            ),
            Some(LoaderState::Buffer { authority_address }) => Ok(
                ProgramLocation::Here { authority: authority_address, offset: BUFFER_METADATA_LEN },
            ),
            _ => Err(ProgramDataError::AccountIsNotUpgradeable),
        }
    } else {
        Err(ProgramDataError::AccountIsNotBpf)
    }
}

/// Finds the binary in the account that a program points at: the account
/// must hold the data of a program.
pub fn locate_program_data(state: Option<LoaderState>) -> (r: core::result::Result<
    ProgramLocation,
    ProgramDataError,
>)
    ensures
        r == match state {
            Some(LoaderState::ProgramData { upgrade_authority_address, .. }) => Ok::<
                ProgramLocation,
                ProgramDataError,
            >(
                ProgramLocation::Here {
                    authority: upgrade_authority_address,
                    offset: PROGRAMDATA_METADATA_LEN,
                },
            ),
            _ => Err::<ProgramLocation, ProgramDataError>(ProgramDataError::InvalidAssociatedPda),
        },
{
    match state {
        Some(LoaderState::ProgramData { upgrade_authority_address, .. }) => Ok(
            ProgramLocation::Here {
                authority: upgrade_authority_address,
                offset: PROGRAMDATA_METADATA_LEN,
            },
        ),
        _ => Err(ProgramDataError::InvalidAssociatedPda),
    }
}

/// The binary in the data of an account, from `offset` on.
pub fn program_data_from(data: &[u8], offset: usize) -> (binary: Vec<u8>)
    requires
        offset <= data@.len(),
    ensures
        binary@ == data@.skip(offset as int),
{
    let mut binary: Vec<u8> = Vec::new();
    crate::types::bytes::extend_bytes(
        &mut binary,
        vstd::slice::slice_subrange(data, offset, data.len()),
    );
    binary
}

} // verus!
