use vstd::prelude::*;
use crate::address::Address;

verus! {

/// One account slot of an instruction.
#[derive(Clone, Copy, Debug)]
pub struct AccountMetaEntry {
    /// The account.
    pub key: Address,
    /// Whether the instruction may write to it.
    pub is_writable: bool,
    /// Whether it must sign.
    pub is_signer: bool,
}

/// The accounts of a metadata-program asset movement; the optional ones are
/// present only for programmable assets (records) or assets with a rule set.
#[derive(Clone, Copy, Debug)]
pub struct MetadataTransferKeys {
    pub token: Address,
    pub token_owner: Address,
    pub destination: Address,
    pub destination_owner: Address,
    pub mint: Address,
    pub metadata: Address,
    pub edition: Option<Address>,
    pub owner_token_record: Option<Address>,
    pub destination_token_record: Option<Address>,
    pub authority: Address,
    pub payer: Address,
    pub system_program: Address,
    pub sysvar_instructions: Address,
    pub spl_token_program: Address,
    pub spl_ata_program: Address,
    pub authorization_rules: Option<Address>,
    pub authorization_rules_program: Option<Address>,
}

/// An account slot.
pub open spec fn slot(key: Address, is_writable: bool, is_signer: bool) -> AccountMetaEntry {
    AccountMetaEntry { key, is_writable, is_signer }
}

/// A writable slot for a present optional account, a read-only placeholder otherwise.
pub open spec fn optional_slot(key: Option<Address>, placeholder: Address) -> AccountMetaEntry {
    match key {
        Some(k) => slot(k, true, false),
        None => slot(placeholder, false, false),
    }
}

/// The account slots, in order, of a metadata-program asset movement. Absent
/// edition and records are filled with `metadata_program`; without a rule set
/// both rule slots hold `rules_program`.
pub open spec fn metadata_transfer_slots(k: MetadataTransferKeys, metadata_program: Address, rules_program: Address) -> Seq<AccountMetaEntry> {
    let edition = match k.edition {
        Some(e) => e,
        None => metadata_program,
    };
    let fixed = seq![
        slot(k.token, true, false),
        slot(k.token_owner, false, false),
        slot(k.destination, true, false),
        slot(k.destination_owner, false, false),
        slot(k.mint, false, false),
        slot(k.metadata, true, false),
        slot(edition, false, false),
        optional_slot(k.owner_token_record, metadata_program),
        optional_slot(k.destination_token_record, metadata_program),
        slot(k.authority, false, true),
        slot(k.payer, true, true),
        slot(k.system_program, false, false),
        slot(k.sysvar_instructions, false, false),
        slot(k.spl_token_program, false, false),
        slot(k.spl_ata_program, false, false),
    ];
    match k.authorization_rules {
        Some(rules) => {
            let program = match k.authorization_rules_program {
                Some(p) => p,
                None => rules_program,
            };
            fixed.push(slot(program, false, false)).push(slot(rules, false, false))
        },
        None => fixed.push(slot(rules_program, false, false)).push(slot(rules_program, false, false)),
    }
}

fn push_optional(metas: &mut Vec<AccountMetaEntry>, key: Option<Address>, placeholder: Address)
    ensures
        final(metas)@ == old(metas)@.push(optional_slot(key, placeholder)),
{
    match key {
        Some(k) => metas.push(AccountMetaEntry { key: k, is_writable: true, is_signer: false }),
        None => metas.push(AccountMetaEntry { key: placeholder, is_writable: false, is_signer: false }),
    }
}

/// Lays out the accounts of a metadata-program asset movement.
pub fn metadata_transfer_accounts(k: &MetadataTransferKeys, metadata_program: Address, rules_program: Address) -> (r: Vec<AccountMetaEntry>)
    ensures
        r@ == metadata_transfer_slots(*k, metadata_program, rules_program),
{
    let mut m: Vec<AccountMetaEntry> = Vec::new();
    m.push(AccountMetaEntry { key: k.token, is_writable: true, is_signer: false });
    m.push(AccountMetaEntry { key: k.token_owner, is_writable: false, is_signer: false });
    m.push(AccountMetaEntry { key: k.destination, is_writable: true, is_signer: false });
    m.push(AccountMetaEntry { key: k.destination_owner, is_writable: false, is_signer: false });
    m.push(AccountMetaEntry { key: k.mint, is_writable: false, is_signer: false });
    m.push(AccountMetaEntry { key: k.metadata, is_writable: true, is_signer: false });
    let edition = match k.edition {
        Some(e) => e,
        None => metadata_program,
    };
    m.push(AccountMetaEntry { key: edition, is_writable: false, is_signer: false });
    push_optional(&mut m, k.owner_token_record, metadata_program);
    push_optional(&mut m, k.destination_token_record, metadata_program);
    m.push(AccountMetaEntry { key: k.authority, is_writable: false, is_signer: true });
    m.push(AccountMetaEntry { key: k.payer, is_writable: true, is_signer: true });
    m.push(AccountMetaEntry { key: k.system_program, is_writable: false, is_signer: false });
    m.push(AccountMetaEntry { key: k.sysvar_instructions, is_writable: false, is_signer: false });
    m.push(AccountMetaEntry { key: k.spl_token_program, is_writable: false, is_signer: false });
    m.push(AccountMetaEntry { key: k.spl_ata_program, is_writable: false, is_signer: false });
    match k.authorization_rules {
        Some(rules) => {
            let program = match k.authorization_rules_program {
                Some(p) => p,
                None => rules_program,
            };
            m.push(AccountMetaEntry { key: program, is_writable: false, is_signer: false });
            m.push(AccountMetaEntry { key: rules, is_writable: false, is_signer: false });
        },
        None => {
            m.push(AccountMetaEntry { key: rules_program, is_writable: false, is_signer: false });
            m.push(AccountMetaEntry { key: rules_program, is_writable: false, is_signer: false });
        },
    }
    assert(m@ =~= metadata_transfer_slots(*k, metadata_program, rules_program));
    m
}

} // verus!
