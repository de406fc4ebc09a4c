//! The description a database carries of itself.

use vstd::prelude::*;
use crate::text_map::TextMap;

verus! {

/// The metadata section of a database.
#[derive(Debug)]
pub struct Metadata {
    pub binary_format_major_version: u16,
    pub binary_format_minor_version: u16,
    pub build_epoch: u64,
    pub database_type: String,
    /// Descriptions by language code.
    pub description: TextMap<String>,
    pub ip_version: u16,
    pub languages: Vec<String>,
    pub node_count: u32,
    pub record_size: u16,
}

/// The metadata as plain values: descriptions as a map, languages in order.
pub struct MetadataView {
    pub binary_format_major_version: u16,
    pub binary_format_minor_version: u16,
    pub build_epoch: u64,
    pub database_type: Seq<char>,
    pub description: Map<Seq<char>, Seq<char>>,
    pub ip_version: u16,
    pub languages: Seq<Seq<char>>,
    pub node_count: u32,
    pub record_size: u16,
}

impl View for Metadata {
    type V = MetadataView;

    open spec fn view(&self) -> MetadataView {
        MetadataView {
            binary_format_major_version: self.binary_format_major_version,
            binary_format_minor_version: self.binary_format_minor_version,
            build_epoch: self.build_epoch,
            database_type: self.database_type@,
            description: self.description@.map_values(|s: String| s@),
            ip_version: self.ip_version,
            languages: self.languages@.map_values(|s: String| s@),
            node_count: self.node_count,
            record_size: self.record_size,
        }
    }
}

/// The metadata as the reader of the format hands it over: descriptions as
/// `(language, text)` pairs.
#[derive(Debug)]
pub struct MetadataRecord {
    pub binary_format_major_version: u16,
    pub binary_format_minor_version: u16,
    pub build_epoch: u64,
    pub database_type: String,
    pub description: Vec<(String, String)>,
    pub ip_version: u16,
    pub languages: Vec<String>,
    pub node_count: u32,
    pub record_size: u16,
}

/// The map a sequence of `(key, value)` pairs stands for, a later pair of a
/// key replacing an earlier one.
pub open spec fn pairs_map(pairs: Seq<(String, String)>) -> Map<Seq<char>, Seq<char>>
    decreases pairs.len(),
{
    if pairs.len() == 0 {
        Map::empty()
    } else {
        pairs_map(pairs.drop_last()).insert(pairs.last().0@, pairs.last().1@)
    }
}

impl View for MetadataRecord {
    type V = MetadataView;

    open spec fn view(&self) -> MetadataView {
        MetadataView {
            binary_format_major_version: self.binary_format_major_version,
            binary_format_minor_version: self.binary_format_minor_version,
            build_epoch: self.build_epoch,
            database_type: self.database_type@,
            description: pairs_map(self.description@),
            ip_version: self.ip_version,
            languages: self.languages@.map_values(|s: String| s@),
            node_count: self.node_count,
            record_size: self.record_size,
        }
    }
}

impl Metadata {
    /// The metadata a record stands for; its descriptions are kept sorted by
    /// language code.
    pub fn from_record(record: MetadataRecord) -> (m: Metadata)
        ensures
            m@ == record@,
    {
        let mut description: TextMap<String> = TextMap::new();
        let n = record.description.len();
        let mut i: usize = 0;
        while i < n
            invariant
                n == record.description@.len(),
                i <= n,
                description@.map_values(|s: String| s@) == pairs_map(
                    record.description@.take(i as int),
                ),
            decreases n - i,
        {
            let key = record.description[i].0.clone();
            let text = record.description[i].1.clone();
            let ghost before = description@;
            description.insert(key, text);
            proof {
                let pairs = record.description@.take(i + 1);
                assert(pairs.drop_last() =~= record.description@.take(i as int));
                assert(description@.map_values(|s: String| s@) =~= before.map_values(
                    |s: String| s@,
                ).insert(pairs.last().0@, pairs.last().1@));
            }
            i = i + 1;
        }
        assert(record.description@.take(n as int) =~= record.description@);
        Metadata {
            binary_format_major_version: record.binary_format_major_version,
            binary_format_minor_version: record.binary_format_minor_version,
            build_epoch: record.build_epoch,
            database_type: record.database_type,
            description,
            ip_version: record.ip_version,
            languages: record.languages,
            node_count: record.node_count,
            record_size: record.record_size,
        }
    }

    /// Bytes per node of the search tree: two records of `record_size` bits.
    pub open spec fn spec_node_byte_size(self) -> int {
        self.record_size as int / 4
    }

    /// Bytes taken by the search tree.
    pub open spec fn spec_search_tree_size(self) -> int {
        self.node_count as int * self.spec_node_byte_size()
    }

    /// Bytes per node of the search tree.
    pub fn node_byte_size(&self) -> (r: u16)
        ensures
            r == self.spec_node_byte_size(),
    {
        self.record_size / 4
    }

    /// Bytes taken by the search tree: the node count times the node size,
    /// exact (it cannot overflow 64 bits).
    pub fn search_tree_size(&self) -> (r: u64)
        ensures
            r == self.spec_search_tree_size(),
    {
        let per_node: u64 = (self.record_size / 4) as u64;
        let nodes: u64 = self.node_count as u64;
        assert(nodes * per_node <= 0xffff_ffffu64 * 0x4000u64) by (nonlinear_arith)
            requires
                nodes <= 0xffff_ffffu64,
                per_node <= 0x4000u64,
        ;
        nodes * per_node
    }
}

} // verus!
