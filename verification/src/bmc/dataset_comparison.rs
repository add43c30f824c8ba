//! Implementation of chapter 9.3.4 Data set comparison algorithm

use vstd::prelude::*;

use core::cmp::Ordering;

use crate::datastructures::{
    common::{lemma_lex_order_antisymmetric, lemma_lex_order_equal, lex_order, ClockIdentity, ClockQuality, PortIdentity},
    datasets::InternalDefaultDS,
    messages::AnnounceMessage,
};

verus! {

/// The order of two integers: `-1` when `a` is smaller, `1` when `a` is
/// larger and `0` when they are equal.
pub open spec fn int_order(a: int, b: int) -> int {
    if a < b {
        -1
    } else if a > b {
        1
    } else {
        0
    }
}

/// An ordering seen from the other side.
pub open spec fn reversed_ordering(o: Ordering) -> Ordering {
    match o {
        Ordering::Less => Ordering::Greater,
        Ordering::Equal => Ordering::Equal,
        Ordering::Greater => Ordering::Less,
    }
}

/// The lexicographic combination of two orders: the second decides only
/// where the first is even.
pub open spec fn then_order(first: int, second: int) -> int {
    if first != 0 {
        first
    } else {
        second
    }
}

/// A collection of data that is gathered from other sources (mainly announce
/// messages and the DefaultDS). When gathered from two different sources, the
/// [compare](crate::bmc::dataset_comparison::ComparisonDataset) method can be
/// used to find out which source is better according to the dataset comparison
/// algorithm.
#[derive(Eq, PartialEq, Debug)]
pub struct ComparisonDataset {
    /// Priority 1 of the grandmaster.
    pub gm_priority_1: u8,
    /// Identity of the grandmaster.
    pub gm_identity: ClockIdentity,
    /// Quality of the clock of the grandmaster.
    pub gm_clock_quality: ClockQuality,
    /// Priority 2 of the grandmaster.
    pub gm_priority_2: u8,
    /// Steps between the sender and the grandmaster.
    pub steps_removed: u16,
    /// Clock of the sender of the data.
    pub identity_of_senders: ClockIdentity,
    /// Port that received the data.
    pub identity_of_receiver: PortIdentity,
}

/// The ordering result of the dataset comparison algorithm
#[derive(Debug, Clone, Copy, PartialEq, Eq)]
pub enum DatasetOrdering {
    /// The [ComparisonDataset] is better than the one being compared against
    Better,
    /// The [ComparisonDataset] is of equal quality as the one being compared
    /// against, but is preferred because of the network topology
    BetterByTopology,
    /// The [ComparisonDataset] is equal in quality and topology
    Error1,
    /// The [ComparisonDataset] is probably based on the same set of data
    Error2,
    /// The [ComparisonDataset] is of equal quality as the one being compared
    /// against, but is not preferred because of the network topology
    WorseByTopology,
    /// The [ComparisonDataset] is worse than the one being compared against
    Worse,
}

impl DatasetOrdering {
    /// The result of the comparison seen from the other side.
    pub open spec fn reversed(self) -> DatasetOrdering {
        match self {
            DatasetOrdering::Better => DatasetOrdering::Worse,
            DatasetOrdering::BetterByTopology => DatasetOrdering::WorseByTopology,
            DatasetOrdering::Error1 => DatasetOrdering::Error1,
            DatasetOrdering::Error2 => DatasetOrdering::Error2,
            DatasetOrdering::WorseByTopology => DatasetOrdering::BetterByTopology,
            DatasetOrdering::Worse => DatasetOrdering::Better,
        }
    }

    /// The ordering that this result stands for: better is greater, worse is
    /// less, and the two errors are equal.
    pub open spec fn ordering(self) -> Ordering {
        match self {
            DatasetOrdering::Better | DatasetOrdering::BetterByTopology => Ordering::Greater,
            DatasetOrdering::Error1 | DatasetOrdering::Error2 => Ordering::Equal,
            DatasetOrdering::WorseByTopology | DatasetOrdering::Worse => Ordering::Less,
        }
    }

    /// Whether the dataset is better, by quality or by topology.
    pub open spec fn spec_is_better(self) -> bool {
        self is Better || self is BetterByTopology
    }

    /// Converts the result into an [`Ordering`]: better is greater.
    pub fn as_ordering(self) -> (r: Ordering)
        ensures
            r == self.ordering(),
    {
        // We get errors if two announce messages are (functionally) the same
        // in that case either option is a valid choice
        match self {
            DatasetOrdering::Better | DatasetOrdering::BetterByTopology => Ordering::Greater,
            DatasetOrdering::Error1 | DatasetOrdering::Error2 => Ordering::Equal,
            DatasetOrdering::WorseByTopology | DatasetOrdering::Worse => Ordering::Less,
        }
    }

    /// Whether the dataset is better, by quality or by topology.
    pub fn is_better(&self) -> (r: bool)
        ensures
            r == self.spec_is_better(),
    {
        matches!(self, DatasetOrdering::Better | DatasetOrdering::BetterByTopology)
    }
}

impl Default for ComparisonDataset {
    fn default() -> (r: Self)
        ensures
            r.gm_priority_1 == 0,
            r.gm_identity.bytes() == seq![0u8, 0u8, 0u8, 0u8, 0u8, 0u8, 0u8, 0u8],
            r.gm_clock_quality.clock_class == 248,
            r.gm_clock_quality.clock_accuracy == crate::datastructures::common::ClockAccuracy::Unknown,
            r.gm_clock_quality.offset_scaled_log_variance == 0xffff,
            r.gm_priority_2 == 0,
            r.steps_removed == 0,
            r.identity_of_senders.bytes() == seq![0u8, 0u8, 0u8, 0u8, 0u8, 0u8, 0u8, 0u8],
            r.identity_of_receiver.clock_identity.bytes() == seq![0u8, 0u8, 0u8, 0u8, 0u8, 0u8, 0u8, 0u8],
            r.identity_of_receiver.port_number == 0,
    {
        ComparisonDataset {
            gm_priority_1: 0,
            gm_identity: ClockIdentity::default(),
            gm_clock_quality: ClockQuality::default(),
            gm_priority_2: 0,
            steps_removed: 0,
            identity_of_senders: ClockIdentity::default(),
            identity_of_receiver: PortIdentity::default(),
        }
    }
}

impl ComparisonDataset {
    /// The order of the grandmasters of two datasets by their qualities
    /// (IEEE1588-2019 figure 34): priority 1, clock class, clock accuracy,
    /// variance, priority 2 and finally identity, lower values first.
    pub open spec fn quality_order(self, other: Self) -> int {
        then_order(
            int_order(self.gm_priority_1 as int, other.gm_priority_1 as int),
            then_order(
                int_order(
                    self.gm_clock_quality.clock_class as int,
                    other.gm_clock_quality.clock_class as int,
                ),
                then_order(
                    int_order(
                        self.gm_clock_quality.clock_accuracy.primitive() as int,
                        other.gm_clock_quality.clock_accuracy.primitive() as int,
                    ),
                    then_order(
                        int_order(
                            self.gm_clock_quality.offset_scaled_log_variance as int,
                            other.gm_clock_quality.offset_scaled_log_variance as int,
                        ),
                        then_order(
                            int_order(self.gm_priority_2 as int, other.gm_priority_2 as int),
                            lex_order(self.gm_identity.bytes(), other.gm_identity.bytes()),
                        ),
                    ),
                ),
            ),
        )
    }

    /// The comparison of two datasets with different grandmasters: the one
    /// whose grandmaster comes first in the quality order is better.
    pub open spec fn spec_compare_different_identity(self, other: Self) -> DatasetOrdering {
        if self.quality_order(other) < 0 {
            DatasetOrdering::Better
        } else {
            DatasetOrdering::Worse
        }
    }

    /// The comparison of two datasets with the same grandmaster
    /// (IEEE1588-2019 figure 35), decided by the steps removed and the
    /// topology.
    pub open spec fn spec_compare_same_identity(self, other: Self) -> DatasetOrdering {
        let difference = self.steps_removed as int - other.steps_removed as int;
        if difference >= 2 {
            DatasetOrdering::Worse
        } else if difference <= -2 {
            DatasetOrdering::Better
        } else if difference == 1 {
            let o = lex_order(
                self.identity_of_receiver.clock_identity.bytes(),
                self.identity_of_senders.bytes(),
            );
            if o < 0 {
                DatasetOrdering::Worse
            } else if o == 0 {
                DatasetOrdering::Error1
            } else {
                DatasetOrdering::WorseByTopology
            }
        } else if difference == -1 {
            let o = lex_order(
                other.identity_of_receiver.clock_identity.bytes(),
                other.identity_of_senders.bytes(),
            );
            if o < 0 {
                DatasetOrdering::Better
            } else if o == 0 {
                DatasetOrdering::Error1
            } else {
                DatasetOrdering::BetterByTopology
            }
        } else {
            let o = then_order(
                lex_order(self.identity_of_senders.bytes(), other.identity_of_senders.bytes()),
                int_order(
                    self.identity_of_receiver.port_number as int,
                    other.identity_of_receiver.port_number as int,
                ),
            );
            if o < 0 {
                DatasetOrdering::BetterByTopology
            } else if o == 0 {
                DatasetOrdering::Error2
            } else {
                DatasetOrdering::WorseByTopology
            }
        }
    }

    /// The result of the data set comparison algorithm for `self` against
    /// `other`.
    pub open spec fn spec_compare(self, other: Self) -> DatasetOrdering {
        if self.gm_identity == other.gm_identity {
            self.spec_compare_same_identity(other)
        } else {
            self.spec_compare_different_identity(other)
        }
    }

    /// The dataset of an announce message received on the port
    /// `port_receiver_identity`.
    pub open spec fn spec_from_announce_message(
        message: AnnounceMessage,
        port_receiver_identity: PortIdentity,
    ) -> ComparisonDataset {
        ComparisonDataset {
            gm_priority_1: message.grandmaster_priority_1,
            gm_identity: message.grandmaster_identity,
            gm_clock_quality: message.grandmaster_clock_quality,
            gm_priority_2: message.grandmaster_priority_2,
            steps_removed: message.steps_removed,
            identity_of_senders: message.header.source_port_identity.clock_identity,
            identity_of_receiver: port_receiver_identity,
        }
    }

    /// The dataset of the instance itself, as its own grandmaster.
    pub open spec fn spec_from_own_data(data: InternalDefaultDS) -> ComparisonDataset {
        ComparisonDataset {
            gm_priority_1: data.priority_1,
            gm_identity: data.clock_identity,
            gm_clock_quality: data.clock_quality,
            gm_priority_2: data.priority_2,
            steps_removed: 0,
            identity_of_senders: data.clock_identity,
            identity_of_receiver: PortIdentity { clock_identity: data.clock_identity, port_number: 0 },
        }
    }

    /// Create a ComparisonDataset from the data in an announce message and the
    /// port identity of the port that received the announce message
    pub fn from_announce_message(message: &AnnounceMessage, port_receiver_identity: &PortIdentity) -> (r: Self)
        ensures
            r == Self::spec_from_announce_message(*message, *port_receiver_identity),
    {
        Self {
            gm_priority_1: message.grandmaster_priority_1,
            gm_identity: message.grandmaster_identity,
            gm_clock_quality: message.grandmaster_clock_quality,
            gm_priority_2: message.grandmaster_priority_2,
            steps_removed: message.steps_removed,
            identity_of_senders: message.header.source_port_identity.clock_identity,
            identity_of_receiver: *port_receiver_identity,
        }
    }

    /// Create a ComparisonDataset for the instance itself from its default
    /// data set.
    pub fn from_own_data(data: &InternalDefaultDS) -> (r: Self)
        ensures
            r == Self::spec_from_own_data(*data),
    {
        Self {
            gm_priority_1: data.priority_1,
            gm_identity: data.clock_identity,
            gm_clock_quality: data.clock_quality,
            gm_priority_2: data.priority_2,
            steps_removed: 0,
            identity_of_senders: data.clock_identity,
            identity_of_receiver: PortIdentity { clock_identity: data.clock_identity, port_number: 0 },
        }
    }

    /// Returns the ordering of `self` in comparison to other.
    pub fn compare(&self, other: &Self) -> (r: DatasetOrdering)
        ensures
            r == self.spec_compare(*other),
    {
        if self.gm_identity.same_as(&other.gm_identity) {
            Self::compare_same_identity(self, other)
        } else {
            Self::compare_different_identity(self, other)
        }
    }

    /// PTP grandmaster instances are different
    fn compare_different_identity(&self, other: &Self) -> (r: DatasetOrdering)
        requires
            self.gm_identity != other.gm_identity,
        ensures
            r == self.spec_compare_different_identity(*other),
    {
        let self_quality = self.gm_clock_quality;
        let other_quality = other.gm_clock_quality;

        // Figure 34
        let mut ordering: i8 = 0;
        if self.gm_priority_1 != other.gm_priority_1 {
            ordering = if self.gm_priority_1 < other.gm_priority_1 { -1 } else { 1 };
        } else if self_quality.clock_class != other_quality.clock_class {
            ordering = if self_quality.clock_class < other_quality.clock_class { -1 } else { 1 };
        } else if self_quality.clock_accuracy.to_primitive() != other_quality.clock_accuracy.to_primitive() {
            // The spec assumes numerical ordering (which is the reverse of the semantic ordering)
            ordering = if self_quality.clock_accuracy.to_primitive() < other_quality.clock_accuracy.to_primitive() { -1 } else { 1 };
        } else if self_quality.offset_scaled_log_variance != other_quality.offset_scaled_log_variance {
            ordering = if self_quality.offset_scaled_log_variance < other_quality.offset_scaled_log_variance { -1 } else { 1 };
        } else if self.gm_priority_2 != other.gm_priority_2 {
            ordering = if self.gm_priority_2 < other.gm_priority_2 { -1 } else { 1 };
        } else {
            ordering = self.gm_identity.byte_order(&other.gm_identity);
        }
        proof {
            lemma_lex_order_equal(self.gm_identity.bytes(), other.gm_identity.bytes());
            if self.gm_identity.bytes() == other.gm_identity.bytes() {
                assert(self.gm_identity.0 =~= other.gm_identity.0);
            }
        }
        // `ordering` is never zero: the identities are different.
        if ordering > 0 {
            DatasetOrdering::Worse
        } else {
            DatasetOrdering::Better
        }
    }

    /// Potentially the same PTP grandmaster instance
    fn compare_same_identity(&self, other: &Self) -> (r: DatasetOrdering)
        ensures
            r == self.spec_compare_same_identity(*other),
    {
        // Figure 35
        if self.steps_removed >= 2 && self.steps_removed - 2 >= other.steps_removed {
            DatasetOrdering::Worse
        } else if other.steps_removed >= 2 && other.steps_removed - 2 >= self.steps_removed {
            DatasetOrdering::Better
        } else if self.steps_removed > other.steps_removed {
            let o = self.identity_of_receiver.clock_identity.byte_order(&self.identity_of_senders);
            if o < 0 {
                DatasetOrdering::Worse
            } else if o == 0 {
                DatasetOrdering::Error1
            } else {
                DatasetOrdering::WorseByTopology
            }
        } else if self.steps_removed < other.steps_removed {
            let o = other.identity_of_receiver.clock_identity.byte_order(&other.identity_of_senders);
            if o < 0 {
                DatasetOrdering::Better
            } else if o == 0 {
                DatasetOrdering::Error1
            } else {
                DatasetOrdering::BetterByTopology
            }
        } else {
            let mut o = self.identity_of_senders.byte_order(&other.identity_of_senders);
            if o == 0 {
                o = if self.identity_of_receiver.port_number < other.identity_of_receiver.port_number {
                    -1
                } else if self.identity_of_receiver.port_number > other.identity_of_receiver.port_number {
                    1
                } else {
                    0
                };
            }
            if o < 0 {
                DatasetOrdering::BetterByTopology
            } else if o == 0 {
                DatasetOrdering::Error2
            } else {
                DatasetOrdering::WorseByTopology
            }
        }
    }
}

/// Comparing two datasets the other way around gives the reversed result:
/// better becomes worse, better by topology becomes worse by topology, and
/// the errors stay.
pub proof fn lemma_compare_antisymmetric(a: ComparisonDataset, b: ComparisonDataset)
    ensures
        b.spec_compare(a) == a.spec_compare(b).reversed(),
{
    lemma_lex_order_antisymmetric(a.gm_identity.bytes(), b.gm_identity.bytes());
    lemma_lex_order_antisymmetric(a.identity_of_senders.bytes(), b.identity_of_senders.bytes());
    lemma_lex_order_equal(a.gm_identity.bytes(), b.gm_identity.bytes());
    if a.gm_identity.bytes() == b.gm_identity.bytes() {
        assert(a.gm_identity.0 =~= b.gm_identity.0);
    }
}

/// A dataset compared with itself is `Error2`: the comparison is based on
/// the same data.
pub proof fn lemma_compare_self(a: ComparisonDataset)
    ensures
        a.spec_compare(a) == DatasetOrdering::Error2,
{
    lemma_lex_order_equal(a.identity_of_senders.bytes(), a.identity_of_senders.bytes());
}

/// Reversing a result reverses its ordering.
pub proof fn lemma_as_ordering_reversed(o: DatasetOrdering)
    ensures
        o.reversed().ordering() == reversed_ordering(o.ordering()),
{
}

} // verus!
