use vstd::prelude::*;
use vstd::string::*;

verus! {

/// The address of the PostgreSQL database:
/// `postgres://{user}:{password}@{host}:5432/{dbname}`.
pub open spec fn connection_url_of(
    user: Seq<char>,
    password: Seq<char>,
    host: Seq<char>,
    dbname: Seq<char>,
) -> Seq<char> {
    "postgres://"@ + user + ":"@ + password + "@"@ + host + ":5432/"@ + dbname
}

pub fn connection_url(pg_user: &str, pg_password: &str, pg_host: &str, pg_dbname: &str) -> (url:
    String)
    ensures
        url@ == connection_url_of(pg_user@, pg_password@, pg_host@, pg_dbname@),
{
    let mut url = String::from_str("postgres://");
    url.append(pg_user);
    url.append(":");
    url.append(pg_password);
    url.append("@");
    url.append(pg_host);
    url.append(":5432/");
    url.append(pg_dbname);
    url
}

/// The parts of the address stand where PostgreSQL reads them: right after
/// the scheme comes the user, followed by `:`; the address ends with `:5432/`
/// and the database name; and it is exactly as long as its parts.
pub proof fn lemma_url_parts(user: Seq<char>, password: Seq<char>, host: Seq<char>, dbname: Seq<char>)
    ensures
        ({
            let url = connection_url_of(user, password, host, dbname);
            let scheme = "postgres://"@;
            &&& url.subrange(0, (scheme.len() + user.len()) as int) == scheme + user
            &&& url[(scheme.len() + user.len()) as int] == ':'
            &&& url.subrange(url.len() - dbname.len(), url.len() as int) == dbname
            &&& url.subrange(url.len() - dbname.len() - 6, url.len() - dbname.len())
                == ":5432/"@
            &&& url.len() == scheme.len() + user.len() + password.len() + host.len() + dbname.len() + 8
        }),
{
    reveal_strlit("postgres://");
    reveal_strlit(":");
    reveal_strlit("@");
    reveal_strlit(":5432/");
    let url = connection_url_of(user, password, host, dbname);
    let scheme = "postgres://"@;
    let head = scheme + user;
    let mid = ":"@ + password + "@"@ + host + ":5432/"@;
    assert(url =~= head + mid + dbname);
    assert(url.subrange(0, head.len() as int) =~= head);
    assert(url[head.len() as int] == mid[0]);
    assert(url.subrange(url.len() - dbname.len(), url.len() as int) =~= dbname);
    assert(url.subrange(url.len() - dbname.len() - 6, url.len() - dbname.len()) =~= ":5432/"@);
}

} // verus!
