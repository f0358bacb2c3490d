use vstd::prelude::*;
use vstd::string::*;

verus! {

/// The fixed identity string sent with every request.
pub fn user_agent() -> (r: &'static str)
    ensures
        r@ == "Mozilla/5.0 (Windows NT 10.0; Win64; x64) AppleWebKit/537.36 (KHTML, like Gecko) Chrome/91.0.4472.124 Safari/537.36"@,
{
    "Mozilla/5.0 (Windows NT 10.0; Win64; x64) AppleWebKit/537.36 (KHTML, like Gecko) Chrome/91.0.4472.124 Safari/537.36"
}

/// The fixed referer value sent with every request.
pub fn referer() -> (r: &'static str)
    ensures
        r@ == "https://www.pixiv.net/"@,
{
    "https://www.pixiv.net/"
}

/// The account-listing endpoint for one account.
pub open spec fn spec_listing_url(account: Seq<char>) -> Seq<char> {
    "https://www.pixiv.net/ajax/user/"@ + account + "/profile/all?lang=zh"@
}

/// Builds the account-listing endpoint URL for `account`.
pub fn listing_url(account: &str) -> (r: String)
    ensures
        r@ == spec_listing_url(account@),
{
    let mut url = String::from_str("https://www.pixiv.net/ajax/user/");
    url.append(account);
    url.append("/profile/all?lang=zh");
    url
}

/// The per-item metadata endpoint for one item.
pub open spec fn spec_item_url(item: Seq<char>) -> Seq<char> {
    "https://www.pixiv.net/ajax/illust/"@ + item
}

/// Builds the metadata endpoint URL for `item`.
pub fn item_url(item: &str) -> (r: String)
    ensures
        r@ == spec_item_url(item@),
{
    let mut url = String::from_str("https://www.pixiv.net/ajax/illust/");
    url.append(item);
    url
}

} // verus!
