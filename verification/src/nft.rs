//! The NFT catalog: the fixed records the marketplace serves, the single-item
//! lookup, and the per-user listing.
//!
//! Prices are held in lamports (the chain's base unit, 10^9 to one SOL) so
//! that every field is a plain integer; the application layer renders them
//! in whole-currency units.

use vstd::prelude::*;
use vstd::string::StringExecFns;

verus! {

/// One NFT record as the catalog serves it.
pub struct Nft {
    pub id: u32,
    pub name: String,
    pub description: String,
    pub image_url: String,
    pub artist: String,
    pub price_lamports: u64,
    pub owner: String,
    pub mint_address: Option<String>,
    pub is_listed: bool,
}

/// The mathematical value of an [`Nft`]: every string as a character sequence.
pub ghost struct NftView {
    pub id: u32,
    pub name: Seq<char>,
    pub description: Seq<char>,
    pub image_url: Seq<char>,
    pub artist: Seq<char>,
    pub price_lamports: u64,
    pub owner: Seq<char>,
    pub mint_address: Option<Seq<char>>,
    pub is_listed: bool,
}

impl View for Nft {
    type V = NftView;

    open spec fn view(&self) -> NftView {
        NftView {
            id: self.id,
            name: self.name@,
            description: self.description@,
            image_url: self.image_url@,
            artist: self.artist@,
            price_lamports: self.price_lamports,
            owner: self.owner@,
            mint_address: match self.mint_address {
                Some(s) => Some(s@),
                None => None,
            },
            is_listed: self.is_listed,
        }
    }
}

/// The catalog's first record.
pub open spec fn nft_one() -> NftView {
    NftView {
        id: 1,
        name: "Cool Art #1"@,
        description: "A beautiful digital artwork"@,
        image_url: "https://picsum.photos/id/237/200/300"@,
        artist: "Artist1"@,
        price_lamports: 600_000_000,
        owner: "JCK39hgE32NjNTbjCfUfh4uhwP9sm7KRL6GBSCpfWYS4"@,
        mint_address: None,
        is_listed: true,
    }
}

/// The catalog's second record.
pub open spec fn nft_two() -> NftView {
    NftView {
        id: 2,
        name: "Digital Masterpiece"@,
        description: "An amazing piece of art"@,
        image_url: "https://picsum.photos/id/237/200/300"@,
        artist: "Artist2"@,
        price_lamports: 1_200_000_000,
        owner: "JCK39hgE32NjNTbjCfUfh4uhwP9sm7KRL6GBSCpfWYS4"@,
        mint_address: None,
        is_listed: true,
    }
}

/// The whole catalog, in order.
pub open spec fn nft_catalog() -> Seq<NftView> {
    seq![nft_one(), nft_two()]
}

/// The record the single-item lookup returns for the identifier 1. It agrees
/// with the catalog's first record except for its image URL.
pub open spec fn nft_detail_one() -> NftView {
    NftView { image_url: "https://example.com/image1.jpg"@, ..nft_one() }
}

/// The catalog listing: always exactly the two fixed records, in order.
pub fn list_nfts() -> (r: Vec<Nft>)
    ensures
        r@.len() == nft_catalog().len(),
        forall|i: int| 0 <= i < r@.len() ==> r@[i]@ == nft_catalog()[i],
{
    let mut v: Vec<Nft> = Vec::new();
    v.push(
        Nft {
            id: 1,
            name: String::from_str("Cool Art #1"),
            description: String::from_str("A beautiful digital artwork"),
            image_url: String::from_str("https://picsum.photos/id/237/200/300"),
            artist: String::from_str("Artist1"),
            price_lamports: 600_000_000,
            owner: String::from_str("JCK39hgE32NjNTbjCfUfh4uhwP9sm7KRL6GBSCpfWYS4"),
            mint_address: None,
            is_listed: true,
        },
    );
    v.push(
        Nft {
            id: 2,
            name: String::from_str("Digital Masterpiece"),
            description: String::from_str("An amazing piece of art"),
            image_url: String::from_str("https://picsum.photos/id/237/200/300"),
            artist: String::from_str("Artist2"),
            price_lamports: 1_200_000_000,
            owner: String::from_str("JCK39hgE32NjNTbjCfUfh4uhwP9sm7KRL6GBSCpfWYS4"),
            mint_address: None,
            is_listed: true,
        },
    );
    v
}

/// The catalog is one fixed constant: any two listings of it are equal.
pub proof fn lemma_catalog_fixed(a: Seq<NftView>, b: Seq<NftView>)
    requires
        a == nft_catalog(),
        b == nft_catalog(),
    ensures
        a == b,
        a.len() == 2,
{
}

/// The single-item lookup: the fixed record for identifier 1, nothing for any
/// other identifier.
pub fn get_nft(id: u32) -> (r: Option<Nft>)
    ensures
        id == 1 ==> (r matches Some(n) && n@ == nft_detail_one()),
        id != 1 ==> r is None,
{
    if id == 1 {
        Some(
            Nft {
                id: 1,
                name: String::from_str("Cool Art #1"),
                description: String::from_str("A beautiful digital artwork"),
                image_url: String::from_str("https://example.com/image1.jpg"),
                artist: String::from_str("Artist1"),
                price_lamports: 600_000_000,
                owner: String::from_str("JCK39hgE32NjNTbjCfUfh4uhwP9sm7KRL6GBSCpfWYS4"),
                mint_address: None,
                is_listed: true,
            },
        )
    } else {
        None
    }
}

/// The body served when the single-item lookup finds nothing.
pub fn nft_not_found_error() -> (r: String)
    ensures
        r@ == "NFT not found "@,
{
    String::from_str("NFT not found ")
}

/// A line of the per-user listing.
pub struct NftSummary {
    pub id: u32,
    pub name: String,
    pub price_lamports: u64,
}

/// The per-user listing: the owner echoed back, the item lines, and their count.
pub struct UserNfts {
    pub owner: String,
    pub nfts: Vec<NftSummary>,
    pub total: u64,
}

/// The per-user listing: echoes the address unvalidated and returns the one
/// fixed summary line; the reported total always equals the number of lines.
pub fn get_user_nfts(address: String) -> (r: UserNfts)
    ensures
        r.owner@ == address@,
        r.total == r.nfts@.len(),
        r.nfts@.len() == 1,
        r.nfts@[0].id == 1,
        r.nfts@[0].name@ == "Cool Art #1"@,
        r.nfts@[0].price_lamports == 600_000_000,
{
    let mut nfts: Vec<NftSummary> = Vec::new();
    nfts.push(
        NftSummary {
            id: 1,
            name: String::from_str("Cool Art #1"),
            price_lamports: 600_000_000,
        },
    );
    UserNfts { owner: address, nfts, total: 1 }
}

} // verus!
