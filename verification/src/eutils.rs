//! Request builders for the Entrez E-utilities.
//!
//! [`ESearch`] and [`EFetch`] hold the parameters of one request each and
//! assemble the request URL from them; every parameter but the database and
//! the search term or identifier list is optional and contributes nothing to
//! the URL when absent. Issuing the request is transport work and lives
//! outside this library: it hands the raw response text to the parsers.

use vstd::prelude::*;

use vstd::string::StringExecFns;

verus! {

/// An Entrez database a request can address.
#[derive(Debug, PartialEq)]
pub enum DB {
    Pubmed,
}

/// The name of a database as it appears in a request URL.
pub open spec fn db_name(db: DB) -> Seq<char> {
    match db {
        DB::Pubmed => "pubmed"@,
    }
}

impl DB {
    /// The database's name as it appears in a request URL.
    pub fn url_name(&self) -> (r: String)
        ensures
            r@ == db_name(*self),
    {
        match self {
            DB::Pubmed => String::from_str("pubmed"),
        }
    }
}

/// A raw XML response, tagged with the endpoint it came from.
#[derive(Debug, PartialEq)]
pub enum XMLResult {
    ESearchResultXML(String),
    PubmedArticleSetXML(String),
}

/// `prefix` followed by the parameter value when the parameter is set,
/// nothing when it is absent.
pub open spec fn opt_param(prefix: Seq<char>, v: Option<&str>) -> Seq<char> {
    match v {
        Some(s) => prefix + s@,
        None => Seq::empty(),
    }
}

/// Appends `prefix` and the parameter value when the parameter is set,
/// nothing when it is absent.
fn append_opt(url: &mut String, prefix: &str, v: Option<&str>)
    ensures
        final(url)@ == old(url)@ + opt_param(prefix@, v),
{
    match v {
        Some(s) => {
            url.append(prefix);
            url.append(s);
            proof {
                assert(url@ =~= old(url)@ + opt_param(prefix@, v));
            }
        },
        None => {
            proof {
                assert(url@ =~= old(url)@ + opt_param(prefix@, v));
            }
        },
    }
}

/// The parameters of one ESearch request. `db` and `term` are required;
/// everything else is optional.
#[derive(Debug, PartialEq)]
pub struct ESearch<'a> {
    pub db: DB,
    pub term: &'a str,
    pub use_history: bool,
    pub webenv: Option<&'a str>,
    pub query_key: Option<&'a str>,
    pub retstart: Option<&'a str>,
    pub retmax: Option<&'a str>,
    pub rettype: Option<&'a str>,
    pub retmode: Option<&'a str>,
    pub sort: Option<&'a str>,
    pub field: Option<&'a str>,
    pub idtype: Option<&'a str>,
    pub datetype: Option<&'a str>,
    pub reldate: Option<&'a str>,
    pub mindate_maxdate: Option<(&'a str, &'a str)>,
}

impl<'a> ESearch<'a> {
    /// The request URL these parameters assemble to.
    pub open spec fn url_view(self) -> Seq<char> {
        "https://eutils.ncbi.nlm.nih.gov/entrez/eutils/esearch.fcgi?"@ + "db="@ + db_name(self.db)
            + "&term="@ + self.term@ + (if self.use_history {
            "&usehistory=y"@
        } else {
            "&usehistory=n"@
        }) + opt_param("&WebEnv="@, self.webenv) + opt_param("&query_key="@, self.query_key)
            + opt_param("&WebEnv="@, self.retstart) + opt_param("&retmax="@, self.retmax)
            + opt_param("&rettype="@, self.rettype) + opt_param("&retmode="@, self.retmode)
            + opt_param("&sort="@, self.sort) + opt_param("&field="@, self.field) + opt_param(
            "&idtype="@,
            self.idtype,
        ) + opt_param("&datetype="@, self.datetype) + opt_param("&reldate="@, self.reldate) + (
        match self.mindate_maxdate {
            Some(mm) => "&mindate="@ + mm.0@ + "&mindate="@ + mm.1@,
            None => Seq::empty(),
        })
    }

    /// A request for `term` against `db`, every optional parameter as
    /// [`ESearch::default`] leaves it.
    pub fn new(db: DB, term: &'a str) -> (r: Self)
        ensures
            r == (ESearch { db, term, ..Self::spec_default() }),
    {
        let mut r = Self::default();
        r.db = db;
        r.term = term;
        r
    }

    /// The field values of [`ESearch::default`].
    pub open spec fn spec_default() -> ESearch<'a> {
        ESearch {
            db: DB::Pubmed,
            term: "",
            use_history: true,
            webenv: None,
            query_key: None,
            retstart: None,
            retmax: None,
            retmode: Some("xml"),
            rettype: Some("xml"),
            sort: None,
            field: None,
            idtype: None,
            datetype: None,
            reldate: None,
            mindate_maxdate: None,
        }
    }

    /// Assembles the request URL: base and endpoint, the required `db` and
    /// `term` parameters, the history flag, then every optional parameter
    /// that is set, in a fixed order. The `retstart` value is emitted under
    /// the `&WebEnv=` key, and both dates of `mindate_maxdate` under
    /// `&mindate=`.
    pub fn build_url(&self) -> (r: String)
        ensures
            r@ == self.url_view(),
    {
        let mut url = String::from_str(
            "https://eutils.ncbi.nlm.nih.gov/entrez/eutils/esearch.fcgi?",
        );
        url.append("db=");
        let dbn = self.db.url_name();
        url.append(dbn.as_str());
        url.append("&term=");
        url.append(self.term);
        if self.use_history {
            url.append("&usehistory=y");
        } else {
            url.append("&usehistory=n");
        }
        append_opt(&mut url, "&WebEnv=", self.webenv);
        append_opt(&mut url, "&query_key=", self.query_key);
        append_opt(&mut url, "&WebEnv=", self.retstart);
        append_opt(&mut url, "&retmax=", self.retmax);
        append_opt(&mut url, "&rettype=", self.rettype);
        append_opt(&mut url, "&retmode=", self.retmode);
        append_opt(&mut url, "&sort=", self.sort);
        append_opt(&mut url, "&field=", self.field);
        append_opt(&mut url, "&idtype=", self.idtype);
        append_opt(&mut url, "&datetype=", self.datetype);
        append_opt(&mut url, "&reldate=", self.reldate);
        if let Some(mm) = self.mindate_maxdate {
            url.append("&mindate=");
            url.append(mm.0);
            url.append("&mindate=");
            url.append(mm.1);
        }
        assert(url@ == self.url_view());
        url
    }
}

impl<'a> Default for ESearch<'a> {
    /// An ESearch request against PubMed with an empty term, history kept,
    /// XML asked for, and every other parameter absent.
    fn default() -> (r: Self)
        ensures
            r == Self::spec_default(),
    {
        ESearch {
            db: DB::Pubmed,
            term: "",
            use_history: true,
            webenv: None,
            query_key: None,
            retstart: None,
            retmax: None,
            retmode: Some("xml"),
            rettype: Some("xml"),
            sort: None,
            field: None,
            idtype: None,
            datetype: None,
            reldate: None,
            mindate_maxdate: None,
        }
    }
}

/// The identifiers of an EFetch request, joined with commas for the URL.
pub open spec fn joined_ids(l: Seq<&str>) -> Seq<char>
    decreases l.len(),
{
    if l.len() == 0 {
        Seq::empty()
    } else if l.len() == 1 {
        l[0]@
    } else {
        joined_ids(l.drop_last()) + ","@ + l.last()@
    }
}

/// How [`joined_ids`] grows at the back.
proof fn lemma_joined_ids_push(s: Seq<&str>, x: &str)
    ensures
        joined_ids(s.push(x)) == (if s.len() == 0 {
            x@
        } else {
            joined_ids(s) + ","@ + x@
        }),
{
    assert(s.push(x).drop_last() =~= s);
}

/// The parameters of one EFetch request. `db` and the identifier list are
/// required; everything else is optional.
#[derive(Debug, PartialEq)]
pub struct EFetch<'a> {
    pub db: DB,
    pub id_list: Vec<&'a str>,
    pub webenv: Option<&'a str>,
    pub query_key: Option<&'a str>,
    pub retstart: Option<&'a str>,
    pub retmax: Option<&'a str>,
    pub rettype: Option<&'a str>,
    pub retmode: Option<&'a str>,
    pub strand: Option<&'a str>,
    pub seq_start: Option<&'a str>,
    pub seq_stop: Option<&'a str>,
    pub complexity: Option<&'a str>,
}

impl<'a> EFetch<'a> {
    /// The request URL these parameters assemble to.
    pub open spec fn url_view(self) -> Seq<char> {
        "https://eutils.ncbi.nlm.nih.gov/entrez/eutils/efetch.fcgi?"@ + "db="@ + db_name(self.db)
            + "&id="@ + joined_ids(self.id_list@) + opt_param("&WebEnv="@, self.webenv)
            + opt_param("&query_key="@, self.query_key) + opt_param("&WebEnv="@, self.retstart)
            + opt_param("&retmax="@, self.retmax) + opt_param("&rettype="@, self.rettype)
            + opt_param("&retmode="@, self.retmode) + opt_param("&query_key="@, self.query_key)
            + opt_param("&strand="@, self.strand) + opt_param("&seq_start="@, self.seq_start)
            + opt_param("&seq_stop="@, self.seq_stop) + opt_param("&complexity="@, self.complexity)
    }

    /// A request for the given identifiers against `db`, every optional
    /// parameter as [`EFetch::default`] leaves it.
    pub fn new(db: DB, id_list: Vec<&'a str>) -> (r: Self)
        ensures
            r.db == db,
            r.id_list@ == id_list@,
            Self::default_opts(r),
    {
        let mut r = Self::default();
        r.db = db;
        r.id_list = id_list;
        r
    }

    /// The optional parameters as [`EFetch::default`] leaves them: XML asked
    /// for, everything else absent.
    pub open spec fn default_opts(r: EFetch<'a>) -> bool {
        &&& r.webenv is None
        &&& r.query_key is None
        &&& r.retstart is None
        &&& r.retmax is None
        &&& (r.retmode matches Some(s) && s@ == "xml"@)
        &&& (r.rettype matches Some(s) && s@ == "xml"@)
        &&& r.strand is None
        &&& r.seq_start is None
        &&& r.seq_stop is None
        &&& r.complexity is None
    }

    /// Assembles the request URL: base and endpoint, the required `db` and
    /// comma-joined `id` parameters, then every optional parameter that is
    /// set, in a fixed order. The `retstart` value is emitted under the
    /// `&WebEnv=` key, and a set `query_key` is emitted twice.
    pub fn build_url(&self) -> (r: String)
        ensures
            r@ == self.url_view(),
    {
        let mut url = String::from_str(
            "https://eutils.ncbi.nlm.nih.gov/entrez/eutils/efetch.fcgi?",
        );
        url.append("db=");
        let dbn = self.db.url_name();
        url.append(dbn.as_str());
        url.append("&id=");
        let ghost ids = self.id_list@;
        let mut i: usize = 0;
        while i < self.id_list.len()
            invariant
                i <= ids.len(),
                ids == self.id_list@,
                url@ == "https://eutils.ncbi.nlm.nih.gov/entrez/eutils/efetch.fcgi?"@ + "db="@
                    + db_name(self.db) + "&id="@ + joined_ids(ids.take(i as int)),
            decreases self.id_list.len() - i,
        {
            if i > 0 {
                url.append(",");
            }
            url.append(self.id_list[i]);
            proof {
                ids.lemma_take_succ_push(i as int);
                lemma_joined_ids_push(ids.take(i as int), ids[i as int]);
                assert(url@ =~= "https://eutils.ncbi.nlm.nih.gov/entrez/eutils/efetch.fcgi?"@
                    + "db="@ + db_name(self.db) + "&id="@ + joined_ids(ids.take(i as int + 1)));
            }
            i = i + 1;
        }
        proof {
            ids.lemma_take_len();
        }
        append_opt(&mut url, "&WebEnv=", self.webenv);
        append_opt(&mut url, "&query_key=", self.query_key);
        append_opt(&mut url, "&WebEnv=", self.retstart);
        append_opt(&mut url, "&retmax=", self.retmax);
        append_opt(&mut url, "&rettype=", self.rettype);
        append_opt(&mut url, "&retmode=", self.retmode);
        append_opt(&mut url, "&query_key=", self.query_key);
        append_opt(&mut url, "&strand=", self.strand);
        append_opt(&mut url, "&seq_start=", self.seq_start);
        append_opt(&mut url, "&seq_stop=", self.seq_stop);
        append_opt(&mut url, "&complexity=", self.complexity);
        assert(url@ == self.url_view());
        url
    }
}

impl<'a> Default for EFetch<'a> {
    /// An EFetch request against PubMed with no identifiers, XML asked for,
    /// and every other parameter absent.
    fn default() -> (r: Self)
        ensures
            r.db == DB::Pubmed,
            r.id_list@ == Seq::<&str>::empty(),
            EFetch::default_opts(r),
    {
        EFetch {
            db: DB::Pubmed,
            id_list: Vec::new(),
            webenv: None,
            query_key: None,
            retstart: None,
            retmax: None,
            retmode: Some("xml"),
            rettype: Some("xml"),
            strand: None,
            seq_start: None,
            seq_stop: None,
            complexity: None,
        }
    }
}

} // verus!
