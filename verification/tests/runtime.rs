use parity_scale_codec::{Compact, Decode, Encode};
use polkadot::runtime::migration_ump::{
    migrate_v4_to_v5, translate, AsyncBackingParams, ConfigurationStorage, HostConfiguration,
    MigrateV4ToV5, StoredConfig, V4HostConfiguration, STORAGE_VERSION,
};
use polkadot::runtime::weight::{saturating_mul, RuntimeDbWeight, Weight};
use polkadot::runtime::weights::{pallet_elections, pallet_tips};
use polkadot::wire::{read_bool, read_compact_u64, read_option_u32, read_u128_le};

const ROCKS_DB: RuntimeDbWeight = RuntimeDbWeight { read: 25_000_000, write: 100_000_000 };

fn unhex(text: &str) -> Vec<u8> {
    let digits: Vec<u8> = text.bytes().map(|c| (c as char).to_digit(16).unwrap() as u8).collect();
    digits.chunks(2).map(|pair| pair[0] * 16 + pair[1]).collect()
}

#[test]
fn weight_arithmetic_saturates() {
    let a = Weight::from_parts(u64::MAX - 1, 5);
    assert_eq!(a.saturating_add(Weight::from_parts(1, 1)), Weight::from_parts(u64::MAX, 6));
    assert_eq!(a.saturating_add(Weight::from_parts(2, u64::MAX)), Weight::from_parts(u64::MAX, u64::MAX));
    assert_eq!(a.saturating_mul(2), Weight::from_parts(u64::MAX, 10));
    assert_eq!(Weight::from_parts(3, 4).saturating_mul(5), Weight::from_parts(15, 20));
    assert_eq!(Weight::from_ref_time(9), Weight::from_parts(9, 0));
    assert_eq!(Weight::from_proof_size(9), Weight::from_parts(0, 9));
    assert_eq!(Weight::zero(), Weight::from_parts(0, 0));
    assert_eq!(saturating_mul(1 << 32, 1 << 32), u64::MAX);
    assert_eq!(saturating_mul(1 << 32, (1 << 32) - 1), (1u64 << 32) * ((1 << 32) - 1));
}

#[test]
fn db_weight_counts_accesses() {
    assert_eq!(ROCKS_DB.reads(3), Weight::from_parts(75_000_000, 0));
    assert_eq!(ROCKS_DB.writes(2), Weight::from_parts(200_000_000, 0));
    assert_eq!(ROCKS_DB.reads_writes(1, 1), Weight::from_parts(125_000_000, 0));
    assert_eq!(ROCKS_DB.reads(u64::MAX), Weight::from_parts(u64::MAX, 0));
    let heavy = RuntimeDbWeight { read: u64::MAX, write: u64::MAX };
    assert_eq!(heavy.reads_writes(1, 1), Weight::from_parts(u64::MAX, 0));
}

#[test]
fn tips_weights() {
    let info = pallet_tips::WeightInfo::new(ROCKS_DB);
    assert_eq!(info.report_awesome(10), Weight::from_parts(269_575_661, 4_954));
    assert_eq!(info.retract_tip(), Weight::from_parts(240_960_000, 2_728));
    assert_eq!(info.tip_new(16_384, 19), Weight::from_parts(298_816_978, 4_326));
    assert_eq!(info.tip(19), Weight::from_parts(167_706_524, 5_491));
    assert_eq!(info.close_tip(7), Weight::from_parts(404_074_011, 6_674));
    assert_eq!(info.slash_tip(19), Weight::from_parts(241_845_736, 2_776));
    assert_eq!(info.slash_tip(0), info.slash_tip(19));
}

#[test]
fn tips_weights_without_database_cost() {
    let info = pallet_tips::WeightInfo::new(RuntimeDbWeight { read: 0, write: 0 });
    assert_eq!(info.report_awesome(0), Weight::from_parts(19_566_311, 4_954));
    assert_eq!(info.report_awesome(u32::MAX), Weight::from_parts(19_566_311 + 935 * u32::MAX as u64, 4_954));
    assert_eq!(info.tip_new(0, u32::MAX), Weight::from_parts(16_999_250, 3_110 + 64 * u32::MAX as u64));
}

#[test]
fn weights_saturate_on_a_costly_database() {
    let info = pallet_tips::WeightInfo::new(RuntimeDbWeight { read: u64::MAX, write: 1 });
    assert_eq!(info.retract_tip(), Weight::from_parts(u64::MAX, 2_728));
    let info = pallet_elections::WeightInfo::new(RuntimeDbWeight { read: 1, write: u64::MAX / 2 });
    assert_eq!(info.clean_defunct_voters(1, 0).ref_time, u64::MAX);
    assert_eq!(info.clean_defunct_voters(0, 0), Weight::from_parts(360_218_670_004, 156_102));
}

#[test]
fn elections_weights() {
    let info = pallet_elections::WeightInfo::new(ROCKS_DB);
    assert_eq!(info.vote_equal(16), Weight::from_parts(384_692_712, 22_790));
    assert_eq!(info.vote_more(2), Weight::from_parts(394_597_387, 18_182));
    assert_eq!(info.vote_less(3), Weight::from_parts(394_550_558, 18_630));
    assert_eq!(info.remove_voter(), Weight::from_parts(320_448_000, 12_634));
    assert_eq!(info.submit_candidacy(1_000), Weight::from_parts(287_562_117, 155_523));
    assert_eq!(info.renounce_candidacy_candidate(5), Weight::from_parts(146_329_205, 1_962));
    assert_eq!(info.renounce_candidacy_members(), Weight::from_parts(546_446_000, 18_935));
    assert_eq!(info.renounce_candidacy_runners_up(), Weight::from_parts(155_749_000, 3_196));
    assert_eq!(info.remove_member_without_replacement(), Weight::from_parts(2_000_000_000_000, 0));
    assert_eq!(info.remove_member_with_replacement(), Weight::from_parts(687_831_000, 22_528));
    assert_eq!(info.clean_defunct_voters(250, 9), Weight::from_parts(471_264_458_000, 3_808_102));
    assert_eq!(info.pre_solve_election(77, 1_000, 9_000), Weight::from_parts(40_492_623_000, 7_580_520));
    assert_eq!(info.post_solve_election(1_000, 2_000, 10_000), Weight::from_parts(153_186_828_000, 4_174_696));
    assert_eq!(info.clean_defunct_voters(250, 0), info.clean_defunct_voters(250, 9));
    assert_eq!(info.pre_solve_election(0, 1_000, 9_000), info.pre_solve_election(77, 1_000, 9_000));
}

#[test]
fn compact_numbers_agree_with_scale() {
    let values = [
        0u64, 1, 63, 64, 16_383, 16_384, (1 << 30) - 1, 1 << 30, u32::MAX as u64, 1 << 32,
        (1 << 40) - 1, 1 << 40, (1 << 48) - 1, 1 << 48, (1 << 56) - 1, 1 << 56, u64::MAX,
        20_000_000_000, 5 * 1024 * 1024,
    ];
    for value in values {
        let mut bytes = Compact(value).encode();
        let len = bytes.len();
        bytes.push(0xee);
        assert_eq!(read_compact_u64(&bytes, 0), Some((value, len)));
        assert_eq!(read_compact_u64(&bytes[..len - 1], 0), None);
    }
    // Every first byte with a few continuations: the same verdict as the codec's.
    for first in 0..=255u8 {
        for filler in [0u8, 1, 0x3f, 0x40, 0xff] {
            for top in [0u8, 1, 0xff] {
                let mut bytes = vec![first];
                bytes.extend_from_slice(&[filler; 7]);
                bytes.push(top);
                for cut in 0..=bytes.len() {
                    let input = &bytes[..cut];
                    let mut rest = input;
                    let theirs =
                        Compact::<u64>::decode(&mut rest).ok().map(|c| (c.0, cut - rest.len()));
                    assert_eq!(read_compact_u64(input, 0), theirs);
                }
            }
        }
    }
}

#[test]
fn stored_forms_agree_with_scale() {
    for value in [0u128, 1, u64::MAX as u128, u64::MAX as u128 + 1, u128::MAX, 1_337] {
        assert_eq!(read_u128_le(&value.encode(), 0), Some((value, 16)));
    }
    assert_eq!(read_u128_le(&[0; 15], 0), None);
    for value in [None, Some(0u32), Some(7), Some(u32::MAX)] {
        let bytes = value.encode();
        assert_eq!(read_option_u32(&bytes, 0), Some((value, bytes.len())));
    }
    assert_eq!(read_option_u32(&[2, 0, 0, 0, 0], 0), None);
    assert_eq!(read_option_u32(&[1, 0, 0, 0], 0), None);
    assert_eq!(read_option_u32(&[], 0), None);
    assert_eq!(read_bool(&[0], 0), Some((false, 1)));
    assert_eq!(read_bool(&[1], 0), Some((true, 1)));
    assert_eq!(read_bool(&[2], 0), None);
    assert_eq!(read_bool(&[1], 1), None);
    let stored = (Compact(20_000_000_000u64), Compact(5_242_880u64)).encode();
    assert_eq!(
        Weight::read(&stored, 0),
        Some((Weight::from_parts(20_000_000_000, 5_242_880), stored.len()))
    );
    assert_eq!(Weight::read(&stored[..stored.len() - 1], 0), None);
}

#[test]
fn v4_default_values() {
    let config = V4HostConfiguration::default();
    assert_eq!(config.group_rotation_frequency, 1);
    assert_eq!(config.chain_availability_period, 1);
    assert_eq!(config.thread_availability_period, 1);
    assert_eq!(config.no_show_slots, 1);
    assert_eq!(config.dispute_period, 6);
    assert_eq!(config.dispute_post_conclusion_acceptance_period, 100);
    assert_eq!(config.dispute_conclusion_by_time_out_period, 200);
    assert_eq!(config.pvf_voting_ttl, 2);
    assert_eq!(config.minimum_validation_upgrade_delay, 2);
    assert_eq!(config.max_validators, None);
    assert_eq!(config.max_validators_per_core, None);
    assert!(!config.pvf_checking_enabled);
    assert_eq!(config.ump_service_total_weight, Weight::zero());
    assert_eq!(config.ump_max_individual_weight, Weight::zero());
    assert_eq!(config.max_code_size, 0);
    assert_eq!(config.hrmp_sender_deposit, 0);
    assert_eq!(config.validation_upgrade_cooldown, 0);
}

#[test]
fn v4_deserialized_from_actual_data() {
    let raw_config = unhex("0000a000005000000a00000000c8000000c800000a0000000a000000100e0000580200000000500000c800000700e8764817020040011e00000000000000005039278c0400000000000000000000005039278c0400000000000000000000e8030000009001001e00000000000000009001008070000000000000000000000a0000000a0000000a00000001000000010500000001c80000000600000058020000580200000200000059000000000000001e000000280000000700c817a80402004001010200000014000000");

    let v4 = V4HostConfiguration::decode(&raw_config[..]).unwrap();

    // We check only a sample of the values here. If we missed any fields or messed up data types
    // that would skew all the fields coming after.
    assert_eq!(v4.max_code_size, 10_485_760);
    assert_eq!(v4.validation_upgrade_cooldown, 3600);
    assert_eq!(v4.max_pov_size, 5_242_880);
    assert_eq!(v4.hrmp_channel_max_message_size, 102_400);
    assert_eq!(v4.n_delay_tranches, 89);
    assert_eq!(
        v4.ump_max_individual_weight,
        Weight::from_parts(20 * 1_000_000_000, 5 * 1024 * 1024)
    );
    assert_eq!(v4.minimum_validation_upgrade_delay, 20);
}

#[test]
fn v4_decoding_needs_every_field() {
    let raw_config = unhex("0000a000005000000a00000000c8000000c800000a0000000a000000100e0000580200000000500000c800000700e8764817020040011e00000000000000005039278c0400000000000000000000005039278c0400000000000000000000e8030000009001001e00000000000000009001008070000000000000000000000a0000000a0000000a00000001000000010500000001c80000000600000058020000580200000200000059000000000000001e000000280000000700c817a80402004001010200000014000000");
    for cut in 0..raw_config.len() {
        assert_eq!(V4HostConfiguration::decode(&raw_config[..cut]), None);
    }
    let mut longer = raw_config.clone();
    longer.push(0);
    assert_eq!(V4HostConfiguration::decode(&longer), V4HostConfiguration::decode(&raw_config));
    let mut bad_flag = raw_config.clone();
    let flag = raw_config.len() - 9;
    assert_eq!(bad_flag[flag], 1);
    bad_flag[flag] = 2;
    assert_eq!(V4HostConfiguration::decode(&bad_flag), None);
}

#[test]
fn test_migrate_v4_to_v5() {
    // Host configuration has lots of fields. However, in this migration we add only a couple of
    // fields. The most important part to check are a couple of the last fields. We also pick
    // extra fields to check arbitrarily, e.g. depending on their position (i.e. the middle) and
    // also their type.
    //
    // We specify only the picked fields and the rest should be provided by the `Default`
    // implementation.
    let v4 = V4HostConfiguration {
        ump_max_individual_weight: Weight::from_parts(0x71616e6f6e0au64, 0x71616e6f6e0au64),
        needed_approvals: 69,
        thread_availability_period: 55,
        hrmp_recipient_deposit: 1337,
        max_pov_size: 1111,
        chain_availability_period: 33,
        minimum_validation_upgrade_delay: 20,
        ..Default::default()
    };

    // Implant the v4 version in the state.
    let mut storage =
        ConfigurationStorage { storage_version: 4, active_config: StoredConfig::V4(v4) };

    MigrateV4ToV5::pre_upgrade(&storage).unwrap();
    let _weight = MigrateV4ToV5::on_runtime_upgrade(&mut storage, ROCKS_DB);
    MigrateV4ToV5::post_upgrade(&storage, vec![]).unwrap();

    let v5 = match storage.active_config {
        StoredConfig::V5(config) => config,
        other => panic!("not migrated: {:?}", other),
    };

    assert_eq!(v4.max_code_size                            , v5.max_code_size);
    assert_eq!(v4.max_head_data_size                       , v5.max_head_data_size);
    assert_eq!(v4.max_upward_queue_count                   , v5.max_upward_queue_count);
    assert_eq!(v4.max_upward_queue_size                    , v5.max_upward_queue_size);
    assert_eq!(v4.max_upward_message_size                  , v5.max_upward_message_size);
    assert_eq!(v4.max_upward_message_num_per_candidate     , v5.max_upward_message_num_per_candidate);
    assert_eq!(v4.hrmp_max_message_num_per_candidate       , v5.hrmp_max_message_num_per_candidate);
    assert_eq!(v4.validation_upgrade_cooldown              , v5.validation_upgrade_cooldown);
    assert_eq!(v4.validation_upgrade_delay                 , v5.validation_upgrade_delay);
    assert_eq!(v4.max_pov_size                             , v5.max_pov_size);
    assert_eq!(v4.max_downward_message_size                , v5.max_downward_message_size);
    assert_eq!(v4.hrmp_max_parachain_outbound_channels     , v5.hrmp_max_parachain_outbound_channels);
    assert_eq!(v4.hrmp_max_parathread_outbound_channels    , v5.hrmp_max_parathread_outbound_channels);
    assert_eq!(v4.hrmp_sender_deposit                      , v5.hrmp_sender_deposit);
    assert_eq!(v4.hrmp_recipient_deposit                   , v5.hrmp_recipient_deposit);
    assert_eq!(v4.hrmp_channel_max_capacity                , v5.hrmp_channel_max_capacity);
    assert_eq!(v4.hrmp_channel_max_total_size              , v5.hrmp_channel_max_total_size);
    assert_eq!(v4.hrmp_max_parachain_inbound_channels      , v5.hrmp_max_parachain_inbound_channels);
    assert_eq!(v4.hrmp_max_parathread_inbound_channels     , v5.hrmp_max_parathread_inbound_channels);
    assert_eq!(v4.hrmp_channel_max_message_size            , v5.hrmp_channel_max_message_size);
    assert_eq!(v4.code_retention_period                    , v5.code_retention_period);
    assert_eq!(v4.parathread_cores                         , v5.parathread_cores);
    assert_eq!(v4.parathread_retries                       , v5.parathread_retries);
    assert_eq!(v4.group_rotation_frequency                 , v5.group_rotation_frequency);
    assert_eq!(v4.chain_availability_period                , v5.chain_availability_period);
    assert_eq!(v4.thread_availability_period               , v5.thread_availability_period);
    assert_eq!(v4.scheduling_lookahead                     , v5.scheduling_lookahead);
    assert_eq!(v4.max_validators_per_core                  , v5.max_validators_per_core);
    assert_eq!(v4.max_validators                           , v5.max_validators);
    assert_eq!(v4.dispute_period                           , v5.dispute_period);
    assert_eq!(v4.dispute_post_conclusion_acceptance_period, v5.dispute_post_conclusion_acceptance_period);
    assert_eq!(v4.no_show_slots                            , v5.no_show_slots);
    assert_eq!(v4.n_delay_tranches                         , v5.n_delay_tranches);
    assert_eq!(v4.zeroth_delay_tranche_width               , v5.zeroth_delay_tranche_width);
    assert_eq!(v4.needed_approvals                         , v5.needed_approvals);
    assert_eq!(v4.relay_vrf_modulo_samples                 , v5.relay_vrf_modulo_samples);
    assert_eq!(v4.pvf_checking_enabled                     , v5.pvf_checking_enabled);
    assert_eq!(v4.pvf_voting_ttl                           , v5.pvf_voting_ttl);
    assert_eq!(v4.minimum_validation_upgrade_delay         , v5.minimum_validation_upgrade_delay);
}

#[test]
fn migration_turns_async_backing_off() {
    let v5: HostConfiguration = translate(V4HostConfiguration::default());
    assert_eq!(
        v5.async_backing_params,
        AsyncBackingParams { max_candidate_depth: 0, allowed_ancestry_len: 0 }
    );
}

#[test]
fn upgrade_weight_and_version() {
    let v4 = V4HostConfiguration::default();
    let mut storage =
        ConfigurationStorage { storage_version: 4, active_config: StoredConfig::V4(v4) };
    let weight = MigrateV4ToV5::on_runtime_upgrade(&mut storage, ROCKS_DB);
    assert_eq!(weight, Weight::from_parts(125_000_000, 0));
    assert_eq!(storage.storage_version, 5);
    assert_eq!(STORAGE_VERSION, 5);
    let after = storage;
    let weight = MigrateV4ToV5::on_runtime_upgrade(&mut storage, ROCKS_DB);
    assert_eq!(weight, Weight::from_parts(25_000_000, 0));
    assert_eq!(storage, after);
}

#[test]
fn upgrade_leaves_other_versions_alone() {
    for version in [0u16, 3, 5, 6] {
        let before = ConfigurationStorage {
            storage_version: version,
            active_config: StoredConfig::V4(V4HostConfiguration::default()),
        };
        let mut storage = before;
        assert_eq!(
            MigrateV4ToV5::on_runtime_upgrade(&mut storage, ROCKS_DB),
            Weight::from_parts(25_000_000, 0)
        );
        assert_eq!(storage, before);
        assert_eq!(
            MigrateV4ToV5::pre_upgrade(&storage),
            Err("The migration requires version 4")
        );
    }
}

#[test]
fn upgrade_of_what_is_no_v4_configuration() {
    for stored in [StoredConfig::Absent, StoredConfig::Undecodable] {
        let mut storage = ConfigurationStorage { storage_version: 4, active_config: stored };
        assert_eq!(MigrateV4ToV5::pre_upgrade(&storage), Ok(vec![]));
        let weight = MigrateV4ToV5::on_runtime_upgrade(&mut storage, ROCKS_DB);
        assert_eq!(weight, Weight::from_parts(125_000_000, 0));
        assert_eq!(storage, ConfigurationStorage { storage_version: 5, active_config: stored });
        assert_eq!(MigrateV4ToV5::post_upgrade(&storage, vec![]), Ok(()));
    }
    let mut active = StoredConfig::Undecodable;
    migrate_v4_to_v5(&mut active, ROCKS_DB);
    assert_eq!(active, StoredConfig::Undecodable);
}

#[test]
fn post_upgrade_wants_version_5() {
    let storage = ConfigurationStorage { storage_version: 4, active_config: StoredConfig::Absent };
    assert_eq!(
        MigrateV4ToV5::post_upgrade(&storage, vec![]),
        Err("Storage version should be 5 after the migration")
    );
}
