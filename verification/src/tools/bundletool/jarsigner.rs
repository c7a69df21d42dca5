//! `jarsigner`.
use vstd::prelude::*;
use crate::argv::{ToolCommand, flag_arg, joined_arg, opt_arg, opt_view, push_arg, push_flag, push_joined, push_opt, group_args_passed, has_option, join};

verus! {

/// `jarsigner`: signs and verifies Java Archive (JAR) files.
#[derive(Debug, PartialEq, PartialOrd)]
pub struct Jarsigner {
    /// The keystore location.
    pub keystore: Option<String>,
    /// The password that is required to access the keystore.
    pub storepass: Option<String>,
    /// The type of keystore to be instantiated.
    pub storetype: Option<String>,
    /// The password used to protect the private key of the keystore entry.
    pub keypass: Option<String>,
    /// The location of the certificate chain file.
    pub certchain: Option<String>,
    /// The base file name to be used for the generated .SF and .DSA files.
    pub sigfile: Option<String>,
    /// The name to be used for the signed JAR file.
    pub signedjar: Option<String>,
    /// The name of the message digest algorithm to use when digesting the entries of a JAR file.
    pub digestalg: Option<String>,
    /// The name of the signature algorithm to use to sign the JAR file.
    pub sigalg: Option<String>,
    /// Verifies the JAR file instead of signing it.
    pub verify: bool,
    /// Output detail, such as `summary` or `grouped`.
    pub verbose: Option<String>,
    /// Displays the certificate information of each signer when verifying.
    pub certs: bool,
    /// URL of the Time Stamping Authority.
    pub tsa: Option<String>,
    /// Includes a copy of the .SF file in the .DSA file.
    pub internalsf: bool,
    /// Leaves the manifest hash header out of the .SF file.
    pub sectionsonly: bool,
    /// The password is entered through a protected authentication path.
    pub protected: bool,
    /// Name of the master class file of a cryptographic service provider.
    pub provider_class: Option<String>,
    /// Name of the provider instance to use.
    pub provider_name: Option<String>,
    /// Alias of the TSA public key certificate in the keystore.
    pub tsacert: Option<String>,
    /// Object identifier of the policy ID sent to the TSA server.
    pub tsapolicyid: Option<String>,
    /// Algorithm of digest data in timestamping request.
    pub tsadigestalg: Option<String>,
    /// Class of an alternative signing mechanism.
    pub altsigner: Option<String>,
    /// Paths of the class file of the alternative signing mechanism and of the JAR files it depends on.
    pub altsignerpath: Vec<String>,
    /// The exit code reflects the severe warnings found.
    pub strict: bool,
}

/// The arguments of `jarsigner` for `j`.
pub open spec fn jarsigner_args(j: Jarsigner) -> Seq<Seq<char>> {
    let part1 = opt_arg("-keystore"@, opt_view(j.keystore)) +
        opt_arg("-storepass"@, opt_view(j.storepass)) +
        opt_arg("-storetype"@, opt_view(j.storetype)) +
        opt_arg("-keypass"@, opt_view(j.keypass)) +
        opt_arg("-certchain"@, opt_view(j.certchain)) +
        opt_arg("-sigfile"@, opt_view(j.sigfile)) +
        opt_arg("-signedjar"@, opt_view(j.signedjar)) +
        opt_arg("-digestalg"@, opt_view(j.digestalg)) +
        opt_arg("-sigalg"@, opt_view(j.sigalg)) +
        flag_arg(j.verify, "-verify"@) +
        opt_arg("-verbose"@, opt_view(j.verbose)) +
        flag_arg(j.certs, "-certs"@) +
        opt_arg("-tsa"@, opt_view(j.tsa)) +
        flag_arg(j.internalsf, "-internalsf"@) +
        flag_arg(j.sectionsonly, "-sectionsonly"@) +
        flag_arg(j.protected, "-protected"@);
    part1 +
        opt_arg("-providerClass"@, opt_view(j.provider_class)) +
        opt_arg("-providerName"@, opt_view(j.provider_name)) +
        opt_arg("-tsacert"@, opt_view(j.tsacert)) +
        opt_arg("-tsapolicyid"@, opt_view(j.tsapolicyid)) +
        opt_arg("-tsadigestalg"@, opt_view(j.tsadigestalg)) +
        opt_arg("-altsigner"@, opt_view(j.altsigner)) +
        joined_arg("-altsignerpath"@, j.altsignerpath.deep_view(), ","@) +
        flag_arg(j.strict, "-strict"@)
}

impl Jarsigner {
    /// A command with no option set.
    pub fn new() -> (r: Self)
        ensures
            r.keystore is None,
            r.storepass is None,
            r.storetype is None,
            r.keypass is None,
            r.certchain is None,
            r.sigfile is None,
            r.signedjar is None,
            r.digestalg is None,
            r.sigalg is None,
            !r.verify,
            r.verbose is None,
            !r.certs,
            r.tsa is None,
            !r.internalsf,
            !r.sectionsonly,
            !r.protected,
            r.provider_class is None,
            r.provider_name is None,
            r.tsacert is None,
            r.tsapolicyid is None,
            r.tsadigestalg is None,
            r.altsigner is None,
            r.altsignerpath@.len() == 0,
            !r.strict,
    {
        Jarsigner {
            keystore: None,
            storepass: None,
            storetype: None,
            keypass: None,
            certchain: None,
            sigfile: None,
            signedjar: None,
            digestalg: None,
            sigalg: None,
            verify: false,
            verbose: None,
            certs: false,
            tsa: None,
            internalsf: false,
            sectionsonly: false,
            protected: false,
            provider_class: None,
            provider_name: None,
            tsacert: None,
            tsapolicyid: None,
            tsadigestalg: None,
            altsigner: None,
            altsignerpath: Vec::new(),
            strict: false,
        }
    }

    pub fn keystore(&mut self, keystore: &str) -> (ret: &mut Self)
        ensures
            ret.keystore matches Some(v) && v@ == keystore@,
            *ret == (Jarsigner { keystore: ret.keystore, ..*old(self) }),
            *final(self) == *final(ret),
    {
        self.keystore = Some(keystore.to_owned());
        self
    }

    pub fn storepass(&mut self, storepass: String) -> (ret: &mut Self)
        ensures
            *ret == (Jarsigner { storepass: Some(storepass), ..*old(self) }),
            *final(self) == *final(ret),
    {
        self.storepass = Some(storepass);
        self
    }

    pub fn storetype(&mut self, storetype: String) -> (ret: &mut Self)
        ensures
            *ret == (Jarsigner { storetype: Some(storetype), ..*old(self) }),
            *final(self) == *final(ret),
    {
        self.storetype = Some(storetype);
        self
    }

    pub fn keypass(&mut self, keypass: String) -> (ret: &mut Self)
        ensures
            *ret == (Jarsigner { keypass: Some(keypass), ..*old(self) }),
            *final(self) == *final(ret),
    {
        self.keypass = Some(keypass);
        self
    }

    pub fn certchain(&mut self, certchain: &str) -> (ret: &mut Self)
        ensures
            ret.certchain matches Some(v) && v@ == certchain@,
            *ret == (Jarsigner { certchain: ret.certchain, ..*old(self) }),
            *final(self) == *final(ret),
    {
        self.certchain = Some(certchain.to_owned());
        self
    }

    pub fn sigfile(&mut self, sigfile: &str) -> (ret: &mut Self)
        ensures
            ret.sigfile matches Some(v) && v@ == sigfile@,
            *ret == (Jarsigner { sigfile: ret.sigfile, ..*old(self) }),
            *final(self) == *final(ret),
    {
        self.sigfile = Some(sigfile.to_owned());
        self
    }

    pub fn signedjar(&mut self, signedjar: &str) -> (ret: &mut Self)
        ensures
            ret.signedjar matches Some(v) && v@ == signedjar@,
            *ret == (Jarsigner { signedjar: ret.signedjar, ..*old(self) }),
            *final(self) == *final(ret),
    {
        self.signedjar = Some(signedjar.to_owned());
        self
    }

    pub fn digestalg(&mut self, digestalg: String) -> (ret: &mut Self)
        ensures
            *ret == (Jarsigner { digestalg: Some(digestalg), ..*old(self) }),
            *final(self) == *final(ret),
    {
        self.digestalg = Some(digestalg);
        self
    }

    pub fn sigalg(&mut self, sigalg: String) -> (ret: &mut Self)
        ensures
            *ret == (Jarsigner { sigalg: Some(sigalg), ..*old(self) }),
            *final(self) == *final(ret),
    {
        self.sigalg = Some(sigalg);
        self
    }

    pub fn verify(&mut self, verify: bool) -> (ret: &mut Self)
        ensures
            *ret == (Jarsigner { verify: verify, ..*old(self) }),
            *final(self) == *final(ret),
    {
        self.verify = verify;
        self
    }

    pub fn verbose(&mut self, verbose: String) -> (ret: &mut Self)
        ensures
            *ret == (Jarsigner { verbose: Some(verbose), ..*old(self) }),
            *final(self) == *final(ret),
    {
        self.verbose = Some(verbose);
        self
    }

    pub fn certs(&mut self, certs: bool) -> (ret: &mut Self)
        ensures
            *ret == (Jarsigner { certs: certs, ..*old(self) }),
            *final(self) == *final(ret),
    {
        self.certs = certs;
        self
    }

    pub fn tsa(&mut self, tsa: &str) -> (ret: &mut Self)
        ensures
            ret.tsa matches Some(v) && v@ == tsa@,
            *ret == (Jarsigner { tsa: ret.tsa, ..*old(self) }),
            *final(self) == *final(ret),
    {
        self.tsa = Some(tsa.to_owned());
        self
    }

    pub fn internalsf(&mut self, internalsf: bool) -> (ret: &mut Self)
        ensures
            *ret == (Jarsigner { internalsf: internalsf, ..*old(self) }),
            *final(self) == *final(ret),
    {
        self.internalsf = internalsf;
        self
    }

    pub fn sectionsonly(&mut self, sectionsonly: bool) -> (ret: &mut Self)
        ensures
            *ret == (Jarsigner { sectionsonly: sectionsonly, ..*old(self) }),
            *final(self) == *final(ret),
    {
        self.sectionsonly = sectionsonly;
        self
    }

    pub fn protected(&mut self, protected: bool) -> (ret: &mut Self)
        ensures
            *ret == (Jarsigner { protected: protected, ..*old(self) }),
            *final(self) == *final(ret),
    {
        self.protected = protected;
        self
    }

    pub fn provider_class(&mut self, provider_class: String) -> (ret: &mut Self)
        ensures
            *ret == (Jarsigner { provider_class: Some(provider_class), ..*old(self) }),
            *final(self) == *final(ret),
    {
        self.provider_class = Some(provider_class);
        self
    }

    pub fn provider_name(&mut self, provider_name: String) -> (ret: &mut Self)
        ensures
            *ret == (Jarsigner { provider_name: Some(provider_name), ..*old(self) }),
            *final(self) == *final(ret),
    {
        self.provider_name = Some(provider_name);
        self
    }

    pub fn tsacert(&mut self, tsacert: &str) -> (ret: &mut Self)
        ensures
            ret.tsacert matches Some(v) && v@ == tsacert@,
            *ret == (Jarsigner { tsacert: ret.tsacert, ..*old(self) }),
            *final(self) == *final(ret),
    {
        self.tsacert = Some(tsacert.to_owned());
        self
    }

    pub fn tsapolicyid(&mut self, tsapolicyid: String) -> (ret: &mut Self)
        ensures
            *ret == (Jarsigner { tsapolicyid: Some(tsapolicyid), ..*old(self) }),
            *final(self) == *final(ret),
    {
        self.tsapolicyid = Some(tsapolicyid);
        self
    }

    pub fn tsadigestalg(&mut self, tsadigestalg: String) -> (ret: &mut Self)
        ensures
            *ret == (Jarsigner { tsadigestalg: Some(tsadigestalg), ..*old(self) }),
            *final(self) == *final(ret),
    {
        self.tsadigestalg = Some(tsadigestalg);
        self
    }

    pub fn altsigner(&mut self, altsigner: &str) -> (ret: &mut Self)
        ensures
            ret.altsigner matches Some(v) && v@ == altsigner@,
            *ret == (Jarsigner { altsigner: ret.altsigner, ..*old(self) }),
            *final(self) == *final(ret),
    {
        self.altsigner = Some(altsigner.to_owned());
        self
    }

    pub fn altsignerpath(&mut self, altsignerpath: &str) -> (ret: &mut Self)
        ensures
            ret.altsignerpath.deep_view() == old(self).altsignerpath.deep_view().push(altsignerpath@),
            *ret == (Jarsigner { altsignerpath: ret.altsignerpath, ..*old(self) }),
            *final(self) == *final(ret),
    {
        push_arg(&mut self.altsignerpath, altsignerpath);
        self
    }

    pub fn strict(&mut self, strict: bool) -> (ret: &mut Self)
        ensures
            *ret == (Jarsigner { strict: strict, ..*old(self) }),
            *final(self) == *final(ret),
    {
        self.strict = strict;
        self
    }

    fn push_args_1(&self, args: &mut Vec<String>)
        ensures
            final(args).deep_view() == old(args).deep_view() +
                opt_arg("-keystore"@, opt_view(self.keystore)) +
                opt_arg("-storepass"@, opt_view(self.storepass)) +
                opt_arg("-storetype"@, opt_view(self.storetype)) +
                opt_arg("-keypass"@, opt_view(self.keypass)) +
                opt_arg("-certchain"@, opt_view(self.certchain)) +
                opt_arg("-sigfile"@, opt_view(self.sigfile)) +
                opt_arg("-signedjar"@, opt_view(self.signedjar)) +
                opt_arg("-digestalg"@, opt_view(self.digestalg)) +
                opt_arg("-sigalg"@, opt_view(self.sigalg)) +
                flag_arg(self.verify, "-verify"@) +
                opt_arg("-verbose"@, opt_view(self.verbose)) +
                flag_arg(self.certs, "-certs"@) +
                opt_arg("-tsa"@, opt_view(self.tsa)) +
                flag_arg(self.internalsf, "-internalsf"@) +
                flag_arg(self.sectionsonly, "-sectionsonly"@) +
                flag_arg(self.protected, "-protected"@),
    {
        push_opt(args, "-keystore", &self.keystore);
        push_opt(args, "-storepass", &self.storepass);
        push_opt(args, "-storetype", &self.storetype);
        push_opt(args, "-keypass", &self.keypass);
        push_opt(args, "-certchain", &self.certchain);
        push_opt(args, "-sigfile", &self.sigfile);
        push_opt(args, "-signedjar", &self.signedjar);
        push_opt(args, "-digestalg", &self.digestalg);
        push_opt(args, "-sigalg", &self.sigalg);
        push_flag(args, self.verify, "-verify");
        push_opt(args, "-verbose", &self.verbose);
        push_flag(args, self.certs, "-certs");
        push_opt(args, "-tsa", &self.tsa);
        push_flag(args, self.internalsf, "-internalsf");
        push_flag(args, self.sectionsonly, "-sectionsonly");
        push_flag(args, self.protected, "-protected");
    }

    fn push_args_2(&self, args: &mut Vec<String>)
        ensures
            final(args).deep_view() == old(args).deep_view() +
                opt_arg("-providerClass"@, opt_view(self.provider_class)) +
                opt_arg("-providerName"@, opt_view(self.provider_name)) +
                opt_arg("-tsacert"@, opt_view(self.tsacert)) +
                opt_arg("-tsapolicyid"@, opt_view(self.tsapolicyid)) +
                opt_arg("-tsadigestalg"@, opt_view(self.tsadigestalg)) +
                opt_arg("-altsigner"@, opt_view(self.altsigner)) +
                joined_arg("-altsignerpath"@, self.altsignerpath.deep_view(), ","@) +
                flag_arg(self.strict, "-strict"@),
    {
        push_opt(args, "-providerClass", &self.provider_class);
        push_opt(args, "-providerName", &self.provider_name);
        push_opt(args, "-tsacert", &self.tsacert);
        push_opt(args, "-tsapolicyid", &self.tsapolicyid);
        push_opt(args, "-tsadigestalg", &self.tsadigestalg);
        push_opt(args, "-altsigner", &self.altsigner);
        push_joined(args, "-altsignerpath", &self.altsignerpath, ",");
        push_flag(args, self.strict, "-strict");
    }

    /// The `jarsigner` command line.
    pub fn command(&self) -> (c: ToolCommand)
        ensures
            c.program@ == "jarsigner"@,
            c.args.deep_view() == jarsigner_args(*self),
    {
        let mut c = ToolCommand::new("jarsigner");
        self.push_args_1(&mut c.args);
        self.push_args_2(&mut c.args);
        c
    }
}


/// Every switch of `jarsigner` that is set is passed, and every option that has
/// a value is passed with it.
pub proof fn lemma_jarsigner_passes_every_option(j: Jarsigner)
    ensures
        j.verify ==> jarsigner_args(j).contains("-verify"@),
        j.certs ==> jarsigner_args(j).contains("-certs"@),
        j.internalsf ==> jarsigner_args(j).contains("-internalsf"@),
        j.sectionsonly ==> jarsigner_args(j).contains("-sectionsonly"@),
        j.protected ==> jarsigner_args(j).contains("-protected"@),
        j.strict ==> jarsigner_args(j).contains("-strict"@),
        j.keystore is Some ==> has_option(jarsigner_args(j), "-keystore"@, j.keystore->0@),
        j.storepass is Some ==> has_option(jarsigner_args(j), "-storepass"@, j.storepass->0@),
        j.storetype is Some ==> has_option(jarsigner_args(j), "-storetype"@, j.storetype->0@),
        j.keypass is Some ==> has_option(jarsigner_args(j), "-keypass"@, j.keypass->0@),
        j.certchain is Some ==> has_option(jarsigner_args(j), "-certchain"@, j.certchain->0@),
        j.sigfile is Some ==> has_option(jarsigner_args(j), "-sigfile"@, j.sigfile->0@),
        j.signedjar is Some ==> has_option(jarsigner_args(j), "-signedjar"@, j.signedjar->0@),
        j.digestalg is Some ==> has_option(jarsigner_args(j), "-digestalg"@, j.digestalg->0@),
        j.sigalg is Some ==> has_option(jarsigner_args(j), "-sigalg"@, j.sigalg->0@),
        j.verbose is Some ==> has_option(jarsigner_args(j), "-verbose"@, j.verbose->0@),
        j.tsa is Some ==> has_option(jarsigner_args(j), "-tsa"@, j.tsa->0@),
        j.provider_class is Some ==> has_option(jarsigner_args(j), "-providerClass"@, j.provider_class->0@),
        j.provider_name is Some ==> has_option(jarsigner_args(j), "-providerName"@, j.provider_name->0@),
        j.tsacert is Some ==> has_option(jarsigner_args(j), "-tsacert"@, j.tsacert->0@),
        j.tsapolicyid is Some ==> has_option(jarsigner_args(j), "-tsapolicyid"@, j.tsapolicyid->0@),
        j.tsadigestalg is Some ==> has_option(jarsigner_args(j), "-tsadigestalg"@, j.tsadigestalg->0@),
        j.altsigner is Some ==> has_option(jarsigner_args(j), "-altsigner"@, j.altsigner->0@),
        j.altsignerpath.len() > 0 ==> has_option(jarsigner_args(j), "-altsignerpath"@, join(j.altsignerpath.deep_view(), ","@)),
{
    broadcast use group_args_passed;
}

} // verus!
