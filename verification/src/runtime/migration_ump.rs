//! The upgrade of the stored host configuration from version 4 to version 5
//! of its layout.

use crate::runtime::weight::{RuntimeDbWeight, Weight};
use crate::wire::{
    read_bool, read_option_u32, read_u128_le, read_u32_le, spec_read_bool, spec_read_option_u32,
    spec_read_u128_le, spec_read_u32_le,
};
use vstd::prelude::*;

verus! {

/// The number of a relay-chain block.
pub type BlockNumber = u32;

/// An amount of the chain's currency.
pub type Balance = u128;

/// The number of a session.
pub type SessionIndex = u32;

/// The version of the storage layout that the upgrade leads to.
pub const STORAGE_VERSION: u16 = 5;

/// The version of the storage layout that the upgrade starts from.
pub const PREVIOUS_STORAGE_VERSION: u16 = 4;

/// How far candidates may run ahead of what is included.
#[derive(Debug, Clone, Copy, PartialEq, Eq, Structural)]
pub struct AsyncBackingParams {
    pub max_candidate_depth: u32,
    pub allowed_ancestry_len: u32,
}

/// The host configuration as version 4 of the storage held it.
#[derive(Debug, Clone, Copy, PartialEq, Eq)]
pub struct V4HostConfiguration {
    pub max_code_size: u32,
    pub max_head_data_size: u32,
    pub max_upward_queue_count: u32,
    pub max_upward_queue_size: u32,
    pub max_upward_message_size: u32,
    pub max_upward_message_num_per_candidate: u32,
    pub hrmp_max_message_num_per_candidate: u32,
    pub validation_upgrade_cooldown: BlockNumber,
    pub validation_upgrade_delay: BlockNumber,
    pub max_pov_size: u32,
    pub max_downward_message_size: u32,
    pub ump_service_total_weight: Weight,
    pub hrmp_max_parachain_outbound_channels: u32,
    pub hrmp_max_parathread_outbound_channels: u32,
    pub hrmp_sender_deposit: Balance,
    pub hrmp_recipient_deposit: Balance,
    pub hrmp_channel_max_capacity: u32,
    pub hrmp_channel_max_total_size: u32,
    pub hrmp_max_parachain_inbound_channels: u32,
    pub hrmp_max_parathread_inbound_channels: u32,
    pub hrmp_channel_max_message_size: u32,
    pub code_retention_period: BlockNumber,
    pub parathread_cores: u32,
    pub parathread_retries: u32,
    pub group_rotation_frequency: BlockNumber,
    pub chain_availability_period: BlockNumber,
    pub thread_availability_period: BlockNumber,
    pub scheduling_lookahead: u32,
    pub max_validators_per_core: Option<u32>,
    pub max_validators: Option<u32>,
    pub dispute_period: SessionIndex,
    pub dispute_post_conclusion_acceptance_period: BlockNumber,
    pub dispute_conclusion_by_time_out_period: BlockNumber,
    pub no_show_slots: u32,
    pub n_delay_tranches: u32,
    pub zeroth_delay_tranche_width: u32,
    pub needed_approvals: u32,
    pub relay_vrf_modulo_samples: u32,
    pub ump_max_individual_weight: Weight,
    pub pvf_checking_enabled: bool,
    pub pvf_voting_ttl: SessionIndex,
    pub minimum_validation_upgrade_delay: BlockNumber,
}

/// The host configuration as version 5 of the storage holds it: without the
/// limits of the upward message queue's dispatch and without the time-out of
/// disputes, and with the parameters of asynchronous backing.
#[derive(Debug, Clone, Copy, PartialEq, Eq)]
pub struct HostConfiguration {
    pub max_code_size: u32,
    pub max_head_data_size: u32,
    pub max_upward_queue_count: u32,
    pub max_upward_queue_size: u32,
    pub max_upward_message_size: u32,
    pub max_upward_message_num_per_candidate: u32,
    pub hrmp_max_message_num_per_candidate: u32,
    pub validation_upgrade_cooldown: BlockNumber,
    pub validation_upgrade_delay: BlockNumber,
    pub max_pov_size: u32,
    pub max_downward_message_size: u32,
    pub hrmp_max_parachain_outbound_channels: u32,
    pub hrmp_max_parathread_outbound_channels: u32,
    pub hrmp_sender_deposit: Balance,
    pub hrmp_recipient_deposit: Balance,
    pub hrmp_channel_max_capacity: u32,
    pub hrmp_channel_max_total_size: u32,
    pub hrmp_max_parachain_inbound_channels: u32,
    pub hrmp_max_parathread_inbound_channels: u32,
    pub hrmp_channel_max_message_size: u32,
    pub code_retention_period: BlockNumber,
    pub parathread_cores: u32,
    pub parathread_retries: u32,
    pub group_rotation_frequency: BlockNumber,
    pub chain_availability_period: BlockNumber,
    pub thread_availability_period: BlockNumber,
    pub scheduling_lookahead: u32,
    pub max_validators_per_core: Option<u32>,
    pub max_validators: Option<u32>,
    pub dispute_period: SessionIndex,
    pub dispute_post_conclusion_acceptance_period: BlockNumber,
    pub no_show_slots: u32,
    pub n_delay_tranches: u32,
    pub zeroth_delay_tranche_width: u32,
    pub needed_approvals: u32,
    pub relay_vrf_modulo_samples: u32,
    pub pvf_checking_enabled: bool,
    pub pvf_voting_ttl: SessionIndex,
    pub minimum_validation_upgrade_delay: BlockNumber,
    pub async_backing_params: AsyncBackingParams,
}

impl V4HostConfiguration {
    /// The configuration of a chain that has set nothing: every period that
    /// must not be empty is one block, disputes last six sessions, and
    /// every limit is zero.
    pub open spec fn spec_default() -> V4HostConfiguration {
        V4HostConfiguration {
            max_code_size: 0,
            max_head_data_size: 0,
            max_upward_queue_count: 0,
            max_upward_queue_size: 0,
            max_upward_message_size: 0,
            max_upward_message_num_per_candidate: 0,
            hrmp_max_message_num_per_candidate: 0,
            validation_upgrade_cooldown: 0,
            validation_upgrade_delay: 0,
            max_pov_size: 0,
            max_downward_message_size: 0,
            ump_service_total_weight: Weight { ref_time: 0, proof_size: 0 },
            hrmp_max_parachain_outbound_channels: 0,
            hrmp_max_parathread_outbound_channels: 0,
            hrmp_sender_deposit: 0,
            hrmp_recipient_deposit: 0,
            hrmp_channel_max_capacity: 0,
            hrmp_channel_max_total_size: 0,
            hrmp_max_parachain_inbound_channels: 0,
            hrmp_max_parathread_inbound_channels: 0,
            hrmp_channel_max_message_size: 0,
            code_retention_period: 0,
            parathread_cores: 0,
            parathread_retries: 0,
            group_rotation_frequency: 1,
            chain_availability_period: 1,
            thread_availability_period: 1,
            scheduling_lookahead: 0,
            max_validators_per_core: None,
            max_validators: None,
            dispute_period: 6,
            dispute_post_conclusion_acceptance_period: 100,
            dispute_conclusion_by_time_out_period: 200,
            no_show_slots: 1,
            n_delay_tranches: 0,
            zeroth_delay_tranche_width: 0,
            needed_approvals: 0,
            relay_vrf_modulo_samples: 0,
            ump_max_individual_weight: Weight { ref_time: 0, proof_size: 0 },
            pvf_checking_enabled: false,
            pvf_voting_ttl: 2,
            minimum_validation_upgrade_delay: 2,
        }
    }
}

impl Default for V4HostConfiguration {
    fn default() -> (config: V4HostConfiguration)
        ensures
            config == V4HostConfiguration::spec_default(),
    {
        V4HostConfiguration {
            group_rotation_frequency: 1,
            chain_availability_period: 1,
            thread_availability_period: 1,
            no_show_slots: 1,
            validation_upgrade_cooldown: 0,
            validation_upgrade_delay: 0,
            code_retention_period: 0,
            max_code_size: 0,
            max_pov_size: 0,
            max_head_data_size: 0,
            parathread_cores: 0,
            parathread_retries: 0,
            scheduling_lookahead: 0,
            max_validators_per_core: None,
            max_validators: None,
            dispute_period: 6,
            dispute_post_conclusion_acceptance_period: 100,
            dispute_conclusion_by_time_out_period: 200,
            n_delay_tranches: 0,
            zeroth_delay_tranche_width: 0,
            needed_approvals: 0,
            relay_vrf_modulo_samples: 0,
            max_upward_queue_count: 0,
            max_upward_queue_size: 0,
            max_downward_message_size: 0,
            ump_service_total_weight: Weight::zero(),
            max_upward_message_size: 0,
            max_upward_message_num_per_candidate: 0,
            hrmp_sender_deposit: 0,
            hrmp_recipient_deposit: 0,
            hrmp_channel_max_capacity: 0,
            hrmp_channel_max_total_size: 0,
            hrmp_max_parachain_inbound_channels: 0,
            hrmp_max_parathread_inbound_channels: 0,
            hrmp_channel_max_message_size: 0,
            hrmp_max_parachain_outbound_channels: 0,
            hrmp_max_parathread_outbound_channels: 0,
            hrmp_max_message_num_per_candidate: 0,
            ump_max_individual_weight: Weight::zero(),
            pvf_checking_enabled: false,
            pvf_voting_ttl: 2,
            minimum_validation_upgrade_delay: 2,
        }
    }
}

/// The position after what was read, and a position outside every buffer
/// where nothing was read: a reader that fails makes all that follow fail.
pub open spec fn spec_after<T>(read: Option<(T, int)>) -> int {
    match read {
        Some((_, next)) => next,
        None => -1,
    }
}

/// Reads a configuration in the layout of version 4 from the start of `s`:
/// its fields one after the other in the order of their declaration, each
/// in its stored form. `None` where a field is cut short or malformed; bytes
/// after the last field are not looked at.
pub open spec fn spec_decode_v4(s: Seq<u8>) -> Option<V4HostConfiguration> {
    let max_code_size = spec_read_u32_le(s, 0);
    let max_head_data_size = spec_read_u32_le(s, spec_after(max_code_size));
    let max_upward_queue_count = spec_read_u32_le(s, spec_after(max_head_data_size));
    let max_upward_queue_size = spec_read_u32_le(s, spec_after(max_upward_queue_count));
    let max_upward_message_size = spec_read_u32_le(s, spec_after(max_upward_queue_size));
    let max_upward_message_num_per_candidate = spec_read_u32_le(
        s,
        spec_after(max_upward_message_size),
    );
    let hrmp_max_message_num_per_candidate = spec_read_u32_le(
        s,
        spec_after(max_upward_message_num_per_candidate),
    );
    let validation_upgrade_cooldown = spec_read_u32_le(
        s,
        spec_after(hrmp_max_message_num_per_candidate),
    );
    let validation_upgrade_delay = spec_read_u32_le(s, spec_after(validation_upgrade_cooldown));
    let max_pov_size = spec_read_u32_le(s, spec_after(validation_upgrade_delay));
    let max_downward_message_size = spec_read_u32_le(s, spec_after(max_pov_size));
    let ump_service_total_weight = Weight::spec_read(s, spec_after(max_downward_message_size));
    let hrmp_max_parachain_outbound_channels = spec_read_u32_le(
        s,
        spec_after(ump_service_total_weight),
    );
    let hrmp_max_parathread_outbound_channels = spec_read_u32_le(
        s,
        spec_after(hrmp_max_parachain_outbound_channels),
    );
    let hrmp_sender_deposit = spec_read_u128_le(
        s,
        spec_after(hrmp_max_parathread_outbound_channels),
    );
    let hrmp_recipient_deposit = spec_read_u128_le(s, spec_after(hrmp_sender_deposit));
    let hrmp_channel_max_capacity = spec_read_u32_le(s, spec_after(hrmp_recipient_deposit));
    let hrmp_channel_max_total_size = spec_read_u32_le(s, spec_after(hrmp_channel_max_capacity));
    let hrmp_max_parachain_inbound_channels = spec_read_u32_le(
        s,
        spec_after(hrmp_channel_max_total_size),
    );
    let hrmp_max_parathread_inbound_channels = spec_read_u32_le(
        s,
        spec_after(hrmp_max_parachain_inbound_channels),
    );
    let hrmp_channel_max_message_size = spec_read_u32_le(
        s,
        spec_after(hrmp_max_parathread_inbound_channels),
    );
    let code_retention_period = spec_read_u32_le(s, spec_after(hrmp_channel_max_message_size));
    let parathread_cores = spec_read_u32_le(s, spec_after(code_retention_period));
    let parathread_retries = spec_read_u32_le(s, spec_after(parathread_cores));
    let group_rotation_frequency = spec_read_u32_le(s, spec_after(parathread_retries));
    let chain_availability_period = spec_read_u32_le(s, spec_after(group_rotation_frequency));
    let thread_availability_period = spec_read_u32_le(s, spec_after(chain_availability_period));
    let scheduling_lookahead = spec_read_u32_le(s, spec_after(thread_availability_period));
    let max_validators_per_core = spec_read_option_u32(s, spec_after(scheduling_lookahead));
    let max_validators = spec_read_option_u32(s, spec_after(max_validators_per_core));
    let dispute_period = spec_read_u32_le(s, spec_after(max_validators));
    let dispute_post_conclusion_acceptance_period = spec_read_u32_le(s, spec_after(dispute_period));
    let dispute_conclusion_by_time_out_period = spec_read_u32_le(
        s,
        spec_after(dispute_post_conclusion_acceptance_period),
    );
    let no_show_slots = spec_read_u32_le(s, spec_after(dispute_conclusion_by_time_out_period));
    let n_delay_tranches = spec_read_u32_le(s, spec_after(no_show_slots));
    let zeroth_delay_tranche_width = spec_read_u32_le(s, spec_after(n_delay_tranches));
    let needed_approvals = spec_read_u32_le(s, spec_after(zeroth_delay_tranche_width));
    let relay_vrf_modulo_samples = spec_read_u32_le(s, spec_after(needed_approvals));
    let ump_max_individual_weight = Weight::spec_read(s, spec_after(relay_vrf_modulo_samples));
    let pvf_checking_enabled = spec_read_bool(s, spec_after(ump_max_individual_weight));
    let pvf_voting_ttl = spec_read_u32_le(s, spec_after(pvf_checking_enabled));
    let minimum_validation_upgrade_delay = spec_read_u32_le(s, spec_after(pvf_voting_ttl));
    if minimum_validation_upgrade_delay is None {
        None
    } else {
        Some(
            V4HostConfiguration {
                max_code_size: max_code_size->Some_0.0,
                max_head_data_size: max_head_data_size->Some_0.0,
                max_upward_queue_count: max_upward_queue_count->Some_0.0,
                max_upward_queue_size: max_upward_queue_size->Some_0.0,
                max_upward_message_size: max_upward_message_size->Some_0.0,
                max_upward_message_num_per_candidate: max_upward_message_num_per_candidate->Some_0.0,
                hrmp_max_message_num_per_candidate: hrmp_max_message_num_per_candidate->Some_0.0,
                validation_upgrade_cooldown: validation_upgrade_cooldown->Some_0.0,
                validation_upgrade_delay: validation_upgrade_delay->Some_0.0,
                max_pov_size: max_pov_size->Some_0.0,
                max_downward_message_size: max_downward_message_size->Some_0.0,
                ump_service_total_weight: ump_service_total_weight->Some_0.0,
                hrmp_max_parachain_outbound_channels: hrmp_max_parachain_outbound_channels->Some_0.0,
                hrmp_max_parathread_outbound_channels: hrmp_max_parathread_outbound_channels->Some_0.0,
                hrmp_sender_deposit: hrmp_sender_deposit->Some_0.0,
                hrmp_recipient_deposit: hrmp_recipient_deposit->Some_0.0,
                hrmp_channel_max_capacity: hrmp_channel_max_capacity->Some_0.0,
                hrmp_channel_max_total_size: hrmp_channel_max_total_size->Some_0.0,
                hrmp_max_parachain_inbound_channels: hrmp_max_parachain_inbound_channels->Some_0.0,
                hrmp_max_parathread_inbound_channels: hrmp_max_parathread_inbound_channels->Some_0.0,
                hrmp_channel_max_message_size: hrmp_channel_max_message_size->Some_0.0,
                code_retention_period: code_retention_period->Some_0.0,
                parathread_cores: parathread_cores->Some_0.0,
                parathread_retries: parathread_retries->Some_0.0,
                group_rotation_frequency: group_rotation_frequency->Some_0.0,
                chain_availability_period: chain_availability_period->Some_0.0,
                thread_availability_period: thread_availability_period->Some_0.0,
                scheduling_lookahead: scheduling_lookahead->Some_0.0,
                max_validators_per_core: max_validators_per_core->Some_0.0,
                max_validators: max_validators->Some_0.0,
                dispute_period: dispute_period->Some_0.0,
                dispute_post_conclusion_acceptance_period: dispute_post_conclusion_acceptance_period->Some_0.0,
                dispute_conclusion_by_time_out_period: dispute_conclusion_by_time_out_period->Some_0.0,
                no_show_slots: no_show_slots->Some_0.0,
                n_delay_tranches: n_delay_tranches->Some_0.0,
                zeroth_delay_tranche_width: zeroth_delay_tranche_width->Some_0.0,
                needed_approvals: needed_approvals->Some_0.0,
                relay_vrf_modulo_samples: relay_vrf_modulo_samples->Some_0.0,
                ump_max_individual_weight: ump_max_individual_weight->Some_0.0,
                pvf_checking_enabled: pvf_checking_enabled->Some_0.0,
                pvf_voting_ttl: pvf_voting_ttl->Some_0.0,
                minimum_validation_upgrade_delay: minimum_validation_upgrade_delay->Some_0.0,
            },
        )
    }
}

impl V4HostConfiguration {
    /// Reads a configuration in the layout of version 4 from the start of
    /// `input`, as `spec_decode_v4` does.
    #[verifier::rlimit(50)]
    pub fn decode(input: &[u8]) -> (config: Option<V4HostConfiguration>)
        ensures
            config == spec_decode_v4(input@),
    {
        let (max_code_size, p0) = match read_u32_le(input, 0) {
            Some(read) => read,
            None => { return None; },
        };
        let (max_head_data_size, p1) = match read_u32_le(input, p0) {
            Some(read) => read,
            None => { return None; },
        };
        let (max_upward_queue_count, p2) = match read_u32_le(input, p1) {
            Some(read) => read,
            None => { return None; },
        };
        let (max_upward_queue_size, p3) = match read_u32_le(input, p2) {
            Some(read) => read,
            None => { return None; },
        };
        let (max_upward_message_size, p4) = match read_u32_le(input, p3) {
            Some(read) => read,
            None => { return None; },
        };
        let (max_upward_message_num_per_candidate, p5) = match read_u32_le(input, p4) {
            Some(read) => read,
            None => { return None; },
        };
        let (hrmp_max_message_num_per_candidate, p6) = match read_u32_le(input, p5) {
            Some(read) => read,
            None => { return None; },
        };
        let (validation_upgrade_cooldown, p7) = match read_u32_le(input, p6) {
            Some(read) => read,
            None => { return None; },
        };
        let (validation_upgrade_delay, p8) = match read_u32_le(input, p7) {
            Some(read) => read,
            None => { return None; },
        };
        let (max_pov_size, p9) = match read_u32_le(input, p8) {
            Some(read) => read,
            None => { return None; },
        };
        let (max_downward_message_size, p10) = match read_u32_le(input, p9) {
            Some(read) => read,
            None => { return None; },
        };
        let (ump_service_total_weight, p11) = match Weight::read(input, p10) {
            Some(read) => read,
            None => { return None; },
        };
        let (hrmp_max_parachain_outbound_channels, p12) = match read_u32_le(input, p11) {
            Some(read) => read,
            None => { return None; },
        };
        let (hrmp_max_parathread_outbound_channels, p13) = match read_u32_le(input, p12) {
            Some(read) => read,
            None => { return None; },
        };
        let (hrmp_sender_deposit, p14) = match read_u128_le(input, p13) {
            Some(read) => read,
            None => { return None; },
        };
        let (hrmp_recipient_deposit, p15) = match read_u128_le(input, p14) {
            Some(read) => read,
            None => { return None; },
        };
        let (hrmp_channel_max_capacity, p16) = match read_u32_le(input, p15) {
            Some(read) => read,
            None => { return None; },
        };
        let (hrmp_channel_max_total_size, p17) = match read_u32_le(input, p16) {
            Some(read) => read,
            None => { return None; },
        };
        let (hrmp_max_parachain_inbound_channels, p18) = match read_u32_le(input, p17) {
            Some(read) => read,
            None => { return None; },
        };
        let (hrmp_max_parathread_inbound_channels, p19) = match read_u32_le(input, p18) {
            Some(read) => read,
            None => { return None; },
        };
        let (hrmp_channel_max_message_size, p20) = match read_u32_le(input, p19) {
            Some(read) => read,
            None => { return None; },
        };
        let (code_retention_period, p21) = match read_u32_le(input, p20) {
            Some(read) => read,
            None => { return None; },
        };
        let (parathread_cores, p22) = match read_u32_le(input, p21) {
            Some(read) => read,
            None => { return None; },
        };
        let (parathread_retries, p23) = match read_u32_le(input, p22) {
            Some(read) => read,
            None => { return None; },
        };
        let (group_rotation_frequency, p24) = match read_u32_le(input, p23) {
            Some(read) => read,
            None => { return None; },
        };
        let (chain_availability_period, p25) = match read_u32_le(input, p24) {
            Some(read) => read,
            None => { return None; },
        };
        let (thread_availability_period, p26) = match read_u32_le(input, p25) {
            Some(read) => read,
            None => { return None; },
        };
        let (scheduling_lookahead, p27) = match read_u32_le(input, p26) {
            Some(read) => read,
            None => { return None; },
        };
        let (max_validators_per_core, p28) = match read_option_u32(input, p27) {
            Some(read) => read,
            None => { return None; },
        };
        let (max_validators, p29) = match read_option_u32(input, p28) {
            Some(read) => read,
            None => { return None; },
        };
        let (dispute_period, p30) = match read_u32_le(input, p29) {
            Some(read) => read,
            None => { return None; },
        };
        let (dispute_post_conclusion_acceptance_period, p31) = match read_u32_le(input, p30) {
            Some(read) => read,
            None => { return None; },
        };
        let (dispute_conclusion_by_time_out_period, p32) = match read_u32_le(input, p31) {
            Some(read) => read,
            None => { return None; },
        };
        let (no_show_slots, p33) = match read_u32_le(input, p32) {
            Some(read) => read,
            None => { return None; },
        };
        let (n_delay_tranches, p34) = match read_u32_le(input, p33) {
            Some(read) => read,
            None => { return None; },
        };
        let (zeroth_delay_tranche_width, p35) = match read_u32_le(input, p34) {
            Some(read) => read,
            None => { return None; },
        };
        let (needed_approvals, p36) = match read_u32_le(input, p35) {
            Some(read) => read,
            None => { return None; },
        };
        let (relay_vrf_modulo_samples, p37) = match read_u32_le(input, p36) {
            Some(read) => read,
            None => { return None; },
        };
        let (ump_max_individual_weight, p38) = match Weight::read(input, p37) {
            Some(read) => read,
            None => { return None; },
        };
        let (pvf_checking_enabled, p39) = match read_bool(input, p38) {
            Some(read) => read,
            None => { return None; },
        };
        let (pvf_voting_ttl, p40) = match read_u32_le(input, p39) {
            Some(read) => read,
            None => { return None; },
        };
        let (minimum_validation_upgrade_delay, p41) = match read_u32_le(input, p40) {
            Some(read) => read,
            None => { return None; },
        };
        Some(V4HostConfiguration {
            max_code_size,
            max_head_data_size,
            max_upward_queue_count,
            max_upward_queue_size,
            max_upward_message_size,
            max_upward_message_num_per_candidate,
            hrmp_max_message_num_per_candidate,
            validation_upgrade_cooldown,
            validation_upgrade_delay,
            max_pov_size,
            max_downward_message_size,
            ump_service_total_weight,
            hrmp_max_parachain_outbound_channels,
            hrmp_max_parathread_outbound_channels,
            hrmp_sender_deposit,
            hrmp_recipient_deposit,
            hrmp_channel_max_capacity,
            hrmp_channel_max_total_size,
            hrmp_max_parachain_inbound_channels,
            hrmp_max_parathread_inbound_channels,
            hrmp_channel_max_message_size,
            code_retention_period,
            parathread_cores,
            parathread_retries,
            group_rotation_frequency,
            chain_availability_period,
            thread_availability_period,
            scheduling_lookahead,
            max_validators_per_core,
            max_validators,
            dispute_period,
            dispute_post_conclusion_acceptance_period,
            dispute_conclusion_by_time_out_period,
            no_show_slots,
            n_delay_tranches,
            zeroth_delay_tranche_width,
            needed_approvals,
            relay_vrf_modulo_samples,
            ump_max_individual_weight,
            pvf_checking_enabled,
            pvf_voting_ttl,
            minimum_validation_upgrade_delay,
        })
    }
}

/// The version 5 configuration that stands for a version 4 configuration:
/// every setting that version 5 still has is kept, and asynchronous backing
/// is off, so that no candidate is built on an ancestor from before the
/// upgrade.
pub open spec fn spec_translate(pre: V4HostConfiguration) -> HostConfiguration {
    HostConfiguration {
        max_code_size: pre.max_code_size,
        max_head_data_size: pre.max_head_data_size,
        max_upward_queue_count: pre.max_upward_queue_count,
        max_upward_queue_size: pre.max_upward_queue_size,
        max_upward_message_size: pre.max_upward_message_size,
        max_upward_message_num_per_candidate: pre.max_upward_message_num_per_candidate,
        hrmp_max_message_num_per_candidate: pre.hrmp_max_message_num_per_candidate,
        validation_upgrade_cooldown: pre.validation_upgrade_cooldown,
        validation_upgrade_delay: pre.validation_upgrade_delay,
        max_pov_size: pre.max_pov_size,
        max_downward_message_size: pre.max_downward_message_size,
        hrmp_max_parachain_outbound_channels: pre.hrmp_max_parachain_outbound_channels,
        hrmp_max_parathread_outbound_channels: pre.hrmp_max_parathread_outbound_channels,
        hrmp_sender_deposit: pre.hrmp_sender_deposit,
        hrmp_recipient_deposit: pre.hrmp_recipient_deposit,
        hrmp_channel_max_capacity: pre.hrmp_channel_max_capacity,
        hrmp_channel_max_total_size: pre.hrmp_channel_max_total_size,
        hrmp_max_parachain_inbound_channels: pre.hrmp_max_parachain_inbound_channels,
        hrmp_max_parathread_inbound_channels: pre.hrmp_max_parathread_inbound_channels,
        hrmp_channel_max_message_size: pre.hrmp_channel_max_message_size,
        code_retention_period: pre.code_retention_period,
        parathread_cores: pre.parathread_cores,
        parathread_retries: pre.parathread_retries,
        group_rotation_frequency: pre.group_rotation_frequency,
        chain_availability_period: pre.chain_availability_period,
        thread_availability_period: pre.thread_availability_period,
        scheduling_lookahead: pre.scheduling_lookahead,
        max_validators_per_core: pre.max_validators_per_core,
        max_validators: pre.max_validators,
        dispute_period: pre.dispute_period,
        dispute_post_conclusion_acceptance_period: pre.dispute_post_conclusion_acceptance_period,
        no_show_slots: pre.no_show_slots,
        n_delay_tranches: pre.n_delay_tranches,
        zeroth_delay_tranche_width: pre.zeroth_delay_tranche_width,
        needed_approvals: pre.needed_approvals,
        relay_vrf_modulo_samples: pre.relay_vrf_modulo_samples,
        pvf_checking_enabled: pre.pvf_checking_enabled,
        pvf_voting_ttl: pre.pvf_voting_ttl,
        minimum_validation_upgrade_delay: pre.minimum_validation_upgrade_delay,
        async_backing_params: AsyncBackingParams { max_candidate_depth: 0, allowed_ancestry_len: 0 },
    }
}

/// Converts a version 4 configuration into version 5.
pub fn translate(pre: V4HostConfiguration) -> (config: HostConfiguration)
    ensures
        config == spec_translate(pre),
{
    HostConfiguration {
        max_code_size: pre.max_code_size,
        max_head_data_size: pre.max_head_data_size,
        max_upward_queue_count: pre.max_upward_queue_count,
        max_upward_queue_size: pre.max_upward_queue_size,
        max_upward_message_size: pre.max_upward_message_size,
        max_upward_message_num_per_candidate: pre.max_upward_message_num_per_candidate,
        hrmp_max_message_num_per_candidate: pre.hrmp_max_message_num_per_candidate,
        validation_upgrade_cooldown: pre.validation_upgrade_cooldown,
        validation_upgrade_delay: pre.validation_upgrade_delay,
        max_pov_size: pre.max_pov_size,
        max_downward_message_size: pre.max_downward_message_size,
        hrmp_max_parachain_outbound_channels: pre.hrmp_max_parachain_outbound_channels,
        hrmp_max_parathread_outbound_channels: pre.hrmp_max_parathread_outbound_channels,
        hrmp_sender_deposit: pre.hrmp_sender_deposit,
        hrmp_recipient_deposit: pre.hrmp_recipient_deposit,
        hrmp_channel_max_capacity: pre.hrmp_channel_max_capacity,
        hrmp_channel_max_total_size: pre.hrmp_channel_max_total_size,
        hrmp_max_parachain_inbound_channels: pre.hrmp_max_parachain_inbound_channels,
        hrmp_max_parathread_inbound_channels: pre.hrmp_max_parathread_inbound_channels,
        hrmp_channel_max_message_size: pre.hrmp_channel_max_message_size,
        code_retention_period: pre.code_retention_period,
        parathread_cores: pre.parathread_cores,
        parathread_retries: pre.parathread_retries,
        group_rotation_frequency: pre.group_rotation_frequency,
        chain_availability_period: pre.chain_availability_period,
        thread_availability_period: pre.thread_availability_period,
        scheduling_lookahead: pre.scheduling_lookahead,
        max_validators_per_core: pre.max_validators_per_core,
        max_validators: pre.max_validators,
        dispute_period: pre.dispute_period,
        dispute_post_conclusion_acceptance_period: pre.dispute_post_conclusion_acceptance_period,
        no_show_slots: pre.no_show_slots,
        n_delay_tranches: pre.n_delay_tranches,
        zeroth_delay_tranche_width: pre.zeroth_delay_tranche_width,
        needed_approvals: pre.needed_approvals,
        relay_vrf_modulo_samples: pre.relay_vrf_modulo_samples,
        pvf_checking_enabled: pre.pvf_checking_enabled,
        pvf_voting_ttl: pre.pvf_voting_ttl,
        minimum_validation_upgrade_delay: pre.minimum_validation_upgrade_delay,
        async_backing_params: AsyncBackingParams { max_candidate_depth: 0, allowed_ancestry_len: 0 },
    }
}

/// What the storage holds under the key of the active configuration.
#[derive(Debug, Clone, Copy, PartialEq, Eq)]
pub enum StoredConfig {
    /// Nothing.
    Absent,
    /// A configuration in the layout of version 4.
    V4(V4HostConfiguration),
    /// A configuration in the layout of version 5.
    V5(HostConfiguration),
    /// Bytes that are a configuration in neither layout.
    Undecodable,
}

/// The part of the storage that the upgrade reads and writes.
#[derive(Debug, Clone, Copy, PartialEq, Eq)]
pub struct ConfigurationStorage {
    /// The version of the layout that the storage claims to be in.
    pub storage_version: u16,
    /// What is stored as the active configuration.
    pub active_config: StoredConfig,
}

/// What the conversion leaves under the key of the active configuration:
/// the converted configuration where one in the layout of version 4 was
/// there, and otherwise what was there.
pub open spec fn spec_migrated(stored: StoredConfig) -> StoredConfig {
    match stored {
        StoredConfig::V4(pre) => StoredConfig::V5(spec_translate(pre)),
        other => other,
    }
}

/// The storage after the upgrade ran on it: converted and marked as
/// version 5 where it was marked as version 4, and untouched otherwise.
pub open spec fn spec_upgraded(storage: ConfigurationStorage) -> ConfigurationStorage {
    if storage.storage_version == PREVIOUS_STORAGE_VERSION {
        ConfigurationStorage {
            storage_version: STORAGE_VERSION,
            active_config: spec_migrated(storage.active_config),
        }
    } else {
        storage
    }
}

/// The weight that the upgrade uses up: one read and one write where it
/// converts, and the one read of the version where it does not.
pub open spec fn spec_upgrade_weight(storage_version: u16, db_weight: RuntimeDbWeight) -> Weight {
    if storage_version == PREVIOUS_STORAGE_VERSION {
        Weight {
            ref_time: crate::runtime::weight::spec_saturate(db_weight.read + db_weight.write),
            proof_size: 0,
        }
    } else {
        Weight { ref_time: db_weight.read, proof_size: 0 }
    }
}

/// Converts the active configuration in place: a configuration in the
/// layout of version 4 becomes its conversion; anything else cannot be read
/// as version 4 and stays. Either way the weight of a read and a write is
/// used up.
pub fn migrate_v4_to_v5(active_config: &mut StoredConfig, db_weight: RuntimeDbWeight) -> (weight:
    Weight)
    ensures
        *final(active_config) == spec_migrated(*old(active_config)),
        weight == spec_upgrade_weight(PREVIOUS_STORAGE_VERSION, db_weight),
{
    match *active_config {
        StoredConfig::V4(pre) => {
            *active_config = StoredConfig::V5(translate(pre));
        },
        _ => {},
    }
    db_weight.reads_writes(1, 1)
}

/// The upgrade from version 4 to version 5.
#[derive(Debug, Clone, Copy, PartialEq, Eq, Structural)]
pub struct MigrateV4ToV5;

impl MigrateV4ToV5 {
    /// The check before the upgrade: the storage must be in version 4.
    pub fn pre_upgrade(storage: &ConfigurationStorage) -> (r: Result<Vec<u8>, &'static str>)
        ensures
            r is Ok <==> storage.storage_version == PREVIOUS_STORAGE_VERSION,
            r matches Ok(state) ==> state@ == Seq::<u8>::empty(),
            r matches Err(reason) ==> reason@ == "The migration requires version 4"@,
    {
        if storage.storage_version != PREVIOUS_STORAGE_VERSION {
            return Err("The migration requires version 4");
        }
        Ok(Vec::new())
    }

    /// The upgrade itself: a storage in version 4 is converted and marked as
    /// version 5; any other is left alone. Returns the weight used up.
    pub fn on_runtime_upgrade(storage: &mut ConfigurationStorage, db_weight: RuntimeDbWeight) -> (weight:
        Weight)
        ensures
            *final(storage) == spec_upgraded(*old(storage)),
            weight == spec_upgrade_weight(old(storage).storage_version, db_weight),
    {
        if storage.storage_version == PREVIOUS_STORAGE_VERSION {
            let mut active_config = storage.active_config;
            let weight_consumed = migrate_v4_to_v5(&mut active_config, db_weight);
            storage.active_config = active_config;
            storage.storage_version = STORAGE_VERSION;
            weight_consumed
        } else {
            db_weight.reads(1)
        }
    }

    /// The check after the upgrade: the storage must be in version 5.
    pub fn post_upgrade(storage: &ConfigurationStorage, _state: Vec<u8>) -> (r: Result<
        (),
        &'static str,
    >)
        ensures
            r is Ok <==> storage.storage_version == STORAGE_VERSION,
            r matches Err(reason) ==> reason@ == "Storage version should be 5 after the migration"@,
    {
        if storage.storage_version != STORAGE_VERSION {
            return Err("Storage version should be 5 after the migration");
        }
        Ok(())
    }
}

/// A storage that passes the check before the upgrade passes the check after
/// it, and running the upgrade a second time changes nothing more.
pub proof fn lemma_upgrade_reaches_version_5(storage: ConfigurationStorage)
    requires
        storage.storage_version == PREVIOUS_STORAGE_VERSION,
    ensures
        spec_upgraded(storage).storage_version == STORAGE_VERSION,
        spec_upgraded(spec_upgraded(storage)) == spec_upgraded(storage),
{
}

} // verus!
