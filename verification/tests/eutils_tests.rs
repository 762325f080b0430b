use entrez_rs::eutils::{DB, EFetch, ESearch};

#[test]
fn build_esearch() {
    let url = ESearch::new(DB::Pubmed, "eclampsia").build_url();

    assert_eq!(
        &url,
        "https://eutils.ncbi.nlm.nih.gov/entrez/eutils/esearch.fcgi?db=pubmed&term=eclampsia&usehistory=y&rettype=xml&retmode=xml"
    );
}

#[test]
fn build_efetch() {
    let url = EFetch::new(DB::Pubmed, vec!["33246200"]).build_url();

    println!("{:#?}", &url);
}

#[test]
fn build_efetch_joins_ids_with_commas() {
    let url = EFetch::new(DB::Pubmed, vec!["33246200", "33243171"]).build_url();

    assert_eq!(
        &url,
        "https://eutils.ncbi.nlm.nih.gov/entrez/eutils/efetch.fcgi?db=pubmed&id=33246200,33243171&rettype=xml&retmode=xml"
    );
}

#[test]
fn build_esearch_optional_parameters() {
    let mut req = ESearch::new(DB::Pubmed, "sepsis");
    req.use_history = false;
    req.retmax = Some("20");
    req.sort = Some("pub_date");
    req.mindate_maxdate = Some(("2019", "2021"));
    let url = req.build_url();

    assert_eq!(
        &url,
        "https://eutils.ncbi.nlm.nih.gov/entrez/eutils/esearch.fcgi?db=pubmed&term=sepsis&usehistory=n&retmax=20&rettype=xml&retmode=xml&sort=pub_date&mindate=2019&mindate=2021"
    );
}
