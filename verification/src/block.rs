//! Blocks, and which blocks a cached response is bound to.
use vstd::prelude::*;

verus! {

/// The header of a block.
#[derive(Debug)]
pub struct BlockHeader {
    /// The block's height.
    pub number: u64,
    /// The header as JSON text.
    pub json: String,
}

impl BlockHeader {
    /// The block's height.
    pub fn number(&self) -> (number: u64)
        ensures
            number == self.number,
    {
        self.number
    }
}

impl Clone for BlockHeader {
    fn clone(&self) -> (copy: BlockHeader)
        ensures
            copy == *self,
    {
        BlockHeader { number: self.number, json: self.json.clone() }
    }
}

/// A block, by its height and its hash.
#[derive(Clone, Copy, Debug)]
pub struct BlockNumAndHash {
    pub num: u64,
    pub hash: [u8; 32],
}

impl BlockNumAndHash {
    /// The block's height.
    pub fn num(&self) -> (num: u64)
        ensures
            num == self.num,
    {
        self.num
    }
}

/// Whether the response to a request may be cached, and which blocks it is bound to.
#[derive(Clone, Copy, Debug)]
pub enum CacheMode {
    /// The response must not be cached.
    Never,
    /// The response may be cached.
    Cached {
        /// The first block that the request asks about.
        from_block: Option<BlockNumAndHash>,
        /// The last block that the request asks about.
        to_block: Option<BlockNumAndHash>,
        /// Whether a JSON-RPC error is cached too.
        cache_errors: bool,
    },
}

impl CacheMode {
    /// The height of the first block that the request asks about.
    pub open spec fn first_block(&self) -> Option<u64> {
        match self {
            CacheMode::Cached { from_block: Some(block), .. } => Some(block.num),
            _ => None,
        }
    }

    /// The height of the last block that the request asks about.
    pub open spec fn last_block(&self) -> Option<u64> {
        match self {
            CacheMode::Cached { to_block: Some(block), .. } => Some(block.num),
            _ => None,
        }
    }

    /// The first block that the request asks about.
    pub fn from_block(&self) -> (block: Option<BlockNumAndHash>)
        ensures
            block == (match self {
                CacheMode::Never => None,
                CacheMode::Cached { from_block, .. } => *from_block,
            }),
    {
        match self {
            CacheMode::Never => None,
            CacheMode::Cached { from_block, .. } => *from_block,
        }
    }

    /// The last block that the request asks about.
    pub fn to_block(&self) -> (block: Option<BlockNumAndHash>)
        ensures
            block == (match self {
                CacheMode::Never => None,
                CacheMode::Cached { to_block, .. } => *to_block,
            }),
    {
        match self {
            CacheMode::Never => None,
            CacheMode::Cached { to_block, .. } => *to_block,
        }
    }

    /// Whether a JSON-RPC error is cached too.
    pub fn cache_jsonrpc_errors(&self) -> (cached: bool)
        ensures
            cached == (self matches CacheMode::Cached { cache_errors: true, .. }),
    {
        match self {
            CacheMode::Never => false,
            CacheMode::Cached { cache_errors, .. } => *cache_errors,
        }
    }
}

} // verus!
