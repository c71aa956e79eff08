//! The upgrade helper: all data needed to schedule an upgrade and to
//! generate its proposal and submission command.

use vstd::prelude::*;

use crate::date::{day_number, spec_weekday, valid_date_time, CivilDateTime};
use crate::network::{
    get_chain_id, get_home_dir_name, get_voting_period, spec_chain_id, spec_home_dir_name,
    spec_network_label, spec_voting_period_hours, Network,
};
use crate::date::{SATURDAY, SUNDAY};
use crate::schedule::is_valid_upgrade_time;
use crate::version::{
    is_valid_version, is_valid_version_for_network, spec_is_valid_version,
    spec_is_valid_version_for_network,
};

verus! {

/// Why a helper configuration was rejected.
#[derive(Clone, Debug, PartialEq, Eq)]
pub enum ValidationError {
    /// The target version does not fit the requirements of the network.
    TargetVersion(Network, String),
    /// The previous version is not a well-formed version.
    PreviousVersion(String),
    /// The upgrade time falls on a weekend.
    UpgradeTime(CivilDateTime),
    /// The home directory does not exist.
    HomeDir(String),
}

/// Contains all relevant information for the scheduled upgrade.
#[derive(Clone, Debug)]
pub struct UpgradeHelper {
    /// The chain ID of the node.
    pub chain_id: String,
    /// The name of the config file.
    pub config_file_name: String,
    /// The home directory of the node.
    pub home: String,
    /// The network to create the commands and proposal description for.
    pub network: Network,
    /// The previous version to upgrade from.
    pub previous_version: String,
    /// The name of the proposal.
    pub proposal_name: String,
    /// The name of the proposal file.
    pub proposal_file_name: String,
    /// The summary of the changes in the release.
    pub summary: String,
    /// The target version to upgrade to.
    pub target_version: String,
    /// The scheduled height of the upgrade.
    pub upgrade_height: u64,
    /// The scheduled time of the upgrade.
    pub upgrade_time: CivilDateTime,
    /// The number of hours for the voting period.
    pub voting_period: u64,
}

/// The title of the proposal for a network and a target version.
pub open spec fn spec_proposal_name(network: Network, target_version: Seq<char>) -> Seq<char> {
    "Evmos "@ + spec_network_label(network) + " "@ + target_version + " Upgrade"@
}

/// The stem that proposal artefacts are named after.
pub open spec fn spec_proposal_stem(network: Network, target_version: Seq<char>) -> Seq<char> {
    "proposal-"@ + spec_network_label(network) + "-"@ + target_version
}

/// The node home directory under the user's home directory.
pub open spec fn spec_home_path(network: Network, user_home: Seq<char>) -> Seq<char> {
    user_home + "/"@ + spec_home_dir_name(network)
}

/// The outcome of validating an upgrade helper whose home directory does
/// or does not exist: the first violated rule decides the error.
pub open spec fn spec_validate(helper: UpgradeHelper, home_exists: bool) -> Result<
    (),
    ValidationError,
> {
    if !spec_is_valid_version_for_network(helper.network, helper.target_version@) {
        Err(ValidationError::TargetVersion(helper.network, helper.target_version))
    } else if !spec_is_valid_version(helper.previous_version@) {
        Err(ValidationError::PreviousVersion(helper.previous_version))
    } else if spec_weekday(day_number(helper.upgrade_time.date)) == SATURDAY || spec_weekday(
        day_number(helper.upgrade_time.date),
    ) == SUNDAY {
        Err(ValidationError::UpgradeTime(helper.upgrade_time))
    } else if !home_exists {
        Err(ValidationError::HomeDir(helper.home))
    } else {
        Ok(())
    }
}

impl UpgradeHelper {
    /// Creates a new instance of the upgrade helper.  The caller supplies
    /// the user's home directory; everything else is derived from the
    /// network and the versions.
    pub fn new(
        network: Network,
        previous_version: &str,
        target_version: &str,
        upgrade_time: CivilDateTime,
        upgrade_height: u64,
        summary: &str,
        user_home: &str,
    ) -> (r: UpgradeHelper)
        ensures
            r.chain_id@ == spec_chain_id(network),
            r.config_file_name@ == spec_proposal_stem(network, target_version@) + ".json"@,
            r.home@ == spec_home_path(network, user_home@),
            r.network == network,
            r.previous_version@ == previous_version@,
            r.proposal_name@ == spec_proposal_name(network, target_version@),
            r.proposal_file_name@ == spec_proposal_stem(network, target_version@) + ".md"@,
            r.summary@ == summary@,
            r.target_version@ == target_version@,
            r.upgrade_height == upgrade_height,
            r.upgrade_time == upgrade_time,
            r.voting_period == spec_voting_period_hours(network),
    {
        let chain_id = get_chain_id(network);
        let voting_period = get_voting_period(network);
        let label = network.label();

        let mut home = String::from_str(user_home);
        home.append("/");
        let dir_name = get_home_dir_name(network);
        home.append(dir_name.as_str());

        let mut proposal_name = String::from_str("Evmos ");
        proposal_name.append(label.as_str());
        proposal_name.append(" ");
        proposal_name.append(target_version);
        proposal_name.append(" Upgrade");

        let mut stem = String::from_str("proposal-");
        stem.append(label.as_str());
        stem.append("-");
        stem.append(target_version);

        let mut proposal_file_name = stem.clone();
        proposal_file_name.append(".md");
        let mut config_file_name = stem;
        config_file_name.append(".json");

        UpgradeHelper {
            chain_id,
            config_file_name,
            home,
            network,
            previous_version: previous_version.to_owned(),
            proposal_name,
            proposal_file_name,
            summary: summary.to_owned(),
            target_version: target_version.to_owned(),
            upgrade_height,
            upgrade_time,
            voting_period,
        }
    }

    /// Validates the upgrade helper: the target version must fit the
    /// network, the previous version must be well formed, the upgrade time
    /// must not fall on a weekend, and the home directory must exist (the
    /// caller reports whether it does).
    pub fn validate(&self, home_exists: bool) -> (r: Result<(), ValidationError>)
        requires
            valid_date_time(self.upgrade_time),
        ensures
            r == spec_validate(*self, home_exists),
    {
        if !is_valid_version_for_network(self.network, self.target_version.as_str()) {
            return Err(
                ValidationError::TargetVersion(self.network, self.target_version.clone()),
            );
        }
        if !is_valid_version(self.previous_version.as_str()) {
            return Err(ValidationError::PreviousVersion(self.previous_version.clone()));
        }
        if !is_valid_upgrade_time(&self.upgrade_time) {
            return Err(ValidationError::UpgradeTime(self.upgrade_time));
        }
        if !home_exists {
            return Err(ValidationError::HomeDir(self.home.clone()));
        }
        Ok(())
    }
}

} // verus!
