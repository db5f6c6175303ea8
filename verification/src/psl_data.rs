//! Public Suffix List data, normalised to ASCII.
//!
//! Each constant holds one entry per line, every line ending with `\n`. The
//! normal suffixes are split over several constants; read in order they are
//! sorted by code point, as are the wildcard suffixes, which lets lookups use
//! a binary search. The exception lists are parallel: the label on line `i`
//! of [`PSL_EXCEPTION_LABELS`] is an exception to the wildcard suffix on line
//! `i` of [`PSL_EXCEPTION_KEYS`].
use vstd::prelude::*;

verus! {

/// Normal suffixes, part 1 of 10.
pub const PSL_MAIN_0: &'static str = "0.bg\n001www.com\n0e.vc\n1.azurestaticapps.net\n1.bg\n123hjemmeside.dk\n123hjemmeside.no\n123homepage.it\n123kotisivu.fi\n123minsida.se\n123miweb.es\n123paginaweb.pt\n123sait.ru\n123siteweb.fr\n123webseite.at\n123webseite.de\n123website.be\n123website.ch\n123website.lu\n123website.nl\n12hp.at\n12hp.ch\n12hp.de\n1337.pictures\n16-b.it\n1kapp.com\n2.azurestaticapps.net\n2.bg\n2000.hu\n2038.io\n2ix.at\n2ix.ch\n2ix.de\n3.bg\n32-b.it\n3utilities.com\n4.bg\n4lima.at\n4lima.ch\n4lima.de\n4u.com\n5.bg\n5g.in\n6.bg\n611.to\n64-b.it\n6g.in\n7.bg\n8.bg\n9.bg\n9guacu.br\na.bg\na.prod.fastly.net\na.run.app\na.se\na.ssl.fastly.net\naa.no\naaa\naaa.pro\naarborte.no\naarp\nab.ca\nabarth\nabashiri.hokkaido.jp\nabb\nabbott\nabbvie\nabc\nabc.br\nabeno.osaka.jp\nabiko.chiba.jp\nabira.hokkaido.jp\nabkhazia.su\nable\nabo.pa\nabogado\nabr.it\nabruzzo.it\nabu.yamaguchi.jp\nabudhabi\nac\nac.ae\nac.at\nac.be\nac.ci\nac.cn\nac.cr\nac.cy\nac.fj\nac.gn\nac.gov.br\nac.id\nac.il\nac.im\nac.in\nac.ir\nac.jp\nac.ke\nac.kr\nac.leg.br\nac.lk\nac.ls\nac.ma\nac.me\nac.mu\nac.mw\nac.mz\nac.ni\nac.nz\nac.pa\nac.pr\nac.rs\nac.ru\nac.rw\nac.se\nac.sz\nac.th\nac.tj\nac.tz\nac.ug\nac.uk\nac.vn\nac.za\nac.zm\nac.zw\naca.pro\nacademia.bo\nacademy\nacademy.museum\naccenture\naccesscam.org\naccident-investigation.aero\naccident-prevention.aero\naccountant\naccountants\nacct.pro\nachi.nagano.jp\naco\nact.au\nact.edu.au\nactivetrail.biz\nactor\nad\nad.jp\nadachi.tokyo.jp\nadimo.co.uk\nadm.br\nadobeaemcloud.com\nadobeaemcloud.net\nadobeio-static.net\nadobeioruntime.net\nads\nadult\nadult.ht\nadv.br\nadv.mz\nadygeya.ru\nadygeya.su\nae\nae.org\naeg\naejrie.no\naero\naero.mv\naero.tt\naerobatic.aero\naeroclub.aero\naerodrome.aero\naeroport.fr\naetna\naf\naffinitylottery.org.uk\nafjord.no\nafl\nafrica\nafrica.bj\nafrica.com\nag\nag.it\naga.niigata.jp\nagakhan\nagano.niigata.jp\nagdenes.no\nagematsu.nagano.jp\nagency\nagents.aero\nagr.br\nagrar.hu\nagric.za\nagriculture.museum\nagrigento.it\nagro.bj\nagro.bo\nagro.pl\naguni.okinawa.jp\nah.cn\nah.no\nai\nai.in\naibetsu.hokkaido.jp\naichi.jp\naid.pl\naig\naikawa.kanagawa.jp\nainan.ehime.jp\naioi.hyogo.jp\naip.ee\nair-surveillance.aero\nair-traffic-control.aero\nair.museum\nairbus\naircraft.aero\nairforce\nairguard.museum\nairkitapps-au.com\nairkitapps.com\nairkitapps.eu\nairline.aero\nairport.aero\nairtel\nairtraffic.aero\naisai.aichi.jp\naisho.shiga.jp\naivencloud.com\naizubange.fukushima.jp\naizumi.tokushima.jp\naizumisato.fukushima.jp\naizuwakamatsu.fukushima.jp\naju.br\nak.us\nakabira.hokkaido.jp\nakadns.net\nakagi.shimane.jp\nakaiwa.okayama.jp\nakamai-staging.net\nakamai.net\nakamaiedge-staging.net\nakamaiedge.net\nakamaihd-staging.net\nakamaihd.net\nakamaiorigin-staging.net\nakamaiorigin.net\nakamaized-staging.net\nakamaized.net\nakashi.hyogo.jp\nakdn\naki.kochi.jp\nakiruno.tokyo.jp\nakishima.tokyo.jp\nakita.akita.jp\nakita.jp\nakkeshi.hokkaido.jp\naknoluokta.no\nako.hyogo.jp\nakrehamn.no\naktyubinsk.su\nakune.kagoshima.jp\nal\nal.eu.org\nal.gov.br\nal.it\nal.leg.br\nal.no\nal.us\nalabama.museum\nalaheadju.no\naland.fi\nalaska.museum\nalessandria.it\nalesund.no\nalfaromeo\nalgard.no\nalibaba\nalipay\nallfinanz\nallstate\nally\nalp1.ae.flow.ch\nalpha-myqnapcloud.com\nalpha.bounty-full.com\nalsace\nalstahaug.no\nalstom\nalt.za\nalta.no\naltervista.org\nalto-adige.it\naltoadige.it\nalvdal.no\nalwaysdata.net\nam\nam.br\nam.gov.br\nam.in\nam.leg.br\nama.aichi.jp\nama.shimane.jp\namagasaki.hyogo.jp\namakusa.kumamoto.jp\namami.kagoshima.jp\namazon\namber.museum\nambulance.aero\nambulance.museum\namerican.museum\namericana.museum\namericanantiques.museum\namericanart.museum\namericanexpress\namericanfamily\namex\namfam\nami.ibaraki.jp\namica\namli.no\namot.no\namscompute.com\namsterdam\namsterdam.museum\namusement.aero\nan.it\nanalytics\nanamizu.ishikawa.jp\nanan.nagano.jp\nanan.tokushima.jp\nanani.br\nancona.it\nand.museum\nandasuolo.no\nandebu.no\nando.nara.jp\nandoy.no\nandria-barletta-trani.it\nandria-trani-barletta.it\nandriabarlettatrani.it\nandriatranibarletta.it\nandroid\nangry.jp\nanjo.aichi.jp\nann-arbor.mi.us\nannaka.gunma.jp\nannefrank.museum\nanpachi.gifu.jp\nanquan\nanthro.museum\nanthropology.museum\nantiques.museum\nanz\nao\nao.it\naogaki.hyogo.jp\naogashima.tokyo.jp\naoki.nagano.jp\naol\naomori.aomori.jp\naomori.jp\naosta-valley.it\naosta.it\naostavalley.it\naoste.it\nap-northeast-1.elasticbeanstalk.com\nap-northeast-2.elasticbeanstalk.com\nap-northeast-3.elasticbeanstalk.com\nap-south-1.elasticbeanstalk.com\nap-southeast-1.elasticbeanstalk.com\nap-southeast-2.elasticbeanstalk.com\nap.gov.br\nap.gov.pl\nap.it\nap.leg.br\naparecida.br\napartments\napi.gov.uk\napi.stdlib.com\napigee.io\napp\napp.banzaicloud.io\napp.br\napp.gp\napp.lmpm.com\napp.os.fedoraproject.org\napp.os.stg.fedoraproject.org\napp.render.com\nappchizi.com\nappengine.flow.ch\napple\napplinzi.com\napps.fbsbx.com\napps.lair.io\nappspacehosted.com\nappspaceusercontent.com\nappspot.com\nappudo.net\naq\naq.it\naquarelle\naquarium.museum\naquila.it\nar\nar.com\nar.it\nar.us\narab\narai.shizuoka.jp\narakawa.saitama.jp\narakawa.tokyo.jp\naramco\narao.kumamoto.jp\narboretum.museum\narchaeological.museum\narchaeology.museum\narchi\narchitectes.bj\narchitecture.museum\nardal.no\naremark.no\narendal.no\narezzo.it\nariake.saga.jp\narida.wakayama.jp\naridagawa.wakayama.jp\narita.saga.jp\narkhangelsk.su\narmenia.su\narmy\narna.no\narpa\narq.br\nart\nart.br\nart.do\nart.dz\nart.ht\nart.museum\nart.pl\nart.sn\nartanddesign.museum\nartcenter.museum\nartdeco.museum\narte\narte.bo\narteducation.museum\nartgallery.museum\narts.co\narts.museum\narts.nf\narts.ro\narts.ve\nartsandcrafts.museum\narvo.network\nas\nas.us\nasago.hyogo.jp\nasahi.chiba.jp\nasahi.ibaraki.jp\nasahi.mie.jp\nasahi.nagano.jp\nasahi.toyama.jp\nasahi.yamagata.jp\nasahikawa.hokkaido.jp\nasaka.saitama.jp\nasakawa.fukushima.jp\nasakuchi.okayama.jp\nasaminami.hiroshima.jp\nascoli-piceno.it\nascolipiceno.it\nasda\naseral.no\nashgabad.su\nashibetsu.hokkaido.jp\nashikaga.tochigi.jp\nashiya.fukuoka.jp\nashiya.hyogo.jp\nashoro.hokkaido.jp\nasia\nasker.no\naskim.no\naskoy.no\naskvoll.no\nasmatart.museum\nasn.au\nasn.lv\nasnes.no\naso.kumamoto.jp\nass.km\nassabu.hokkaido.jp\nassassination.museum\nassisi.museum\nassn.lk\nasso.ci\nasso.dz\nasso.eu.org\nasso.fr\nasso.gp\nasso.ht\nasso.km\nasso.mc\nasso.nc\nasso.re\nassociates\nassociation.aero\nassociation.museum\nassur.bj\nasti.it\nastronomy.museum\nasuke.aichi.jp\nat\nat-band-camp.net\nat.eu.org\nat.it\nat.md\nat.vg\natami.shizuoka.jp\nath.cx\nathleta\natl.jelastic.vps-host.net\natlanta.museum\natm.pl\nato.br\natsugi.kanagawa.jp\natsuma.hokkaido.jp\nattorney\nau\nau.eu.org\nauction\naudi\naudible\naudio\naudnedaln.no\naugustow.pl\naukra.no\naure.no\naurland.no\naurskog-holand.no\naus.basketball\nauspost\naustevoll.no\naustin.museum\naustralia.museum\naustrheim.no\nauthgear-staging.com\nauthgearapps.com\nauthor\nauthor.aero\nauto\nauto.pl\nautocode.dev\nautomotive.museum\nautos\nav.it\nav.tr\navellino.it\naveroy.no\navianca\naviation.museum\navocat.fr\navocat.pro\navocats.bj\navoues.fr\naw\nawaji.hyogo.jp\naws\nawsglobalaccelerator.com\nawsmppl.com\nax\naxa\naxis.museum\naya.miyazaki.jp\nayabe.kyoto.jp\nayagawa.kagawa.jp\nayase.kanagawa.jp\naz\naz.us\nazerbaijan.su\nazimuth.network\nazumino.nagano.jp\nazure\nazure-mobile.net\nazurestaticapps.net\nazurewebsites.net\nb-data.io\nb.bg\nb.br\nb.se\nb.ssl.fastly.net\nba\nba.gov.br\nba.it\nba.leg.br\nbabia-gora.pl\nbaby\nbabyblue.jp\nbabymilk.jp\nbackdrop.jp\nbackplaneapp.io\nbadaddja.no\nbadajoz.museum\nbaghdad.museum\nbahcavuotna.no\nbahccavuotna.no\nbahn.museum\nbaidar.no\nbaidu\nbajddar.no\nbalashov.su\nbalat.no\nbale.museum\nbalena-devices.com\nbalestrand.no\nballangen.no\nballooning.aero\nbalsan-sudtirol.it\nbalsan-suedtirol.it\nbalsan.it\nbalsfjord.no\nbaltimore.museum\nbambina.jp\nbamble.no\nbanamex\nbananarepublic\nband\nbandai.fukushima.jp\nbando.ibaraki.jp\nbank\nbar\nbar.pro\nbar0.net\nbar1.net\nbar2.net\nbarcelona\nbarcelona.museum\nbarclaycard\nbarclays\nbardu.no\nbarefoot\nbargains\nbari.it\nbarletta-trani-andria.it\nbarlettatraniandria.it\nbarrel-of-knowledge.info\nbarrell-of-knowledge.info\nbarsy.bg\nbarsy.ca\nbarsy.club\nbarsy.co.uk\nbarsy.de\nbarsy.eu\nbarsy.in\nbarsy.info\nbarsy.io\nbarsy.me\nbarsy.menu\nbarsy.mobi\nbarsy.net\nbarsy.online\nbarsy.org\nbarsy.pro\nbarsy.pub\nbarsy.ro\nbarsy.shop\nbarsy.site\nbarsy.support\nbarsy.uk\nbarsycenter.com\nbarsyonline.co.uk\nbarsyonline.com\nbarueri.br\nbarum.no\nbas.it\nbase.ec\nbase.shop\nbaseball\nbaseball.museum\nbasel.museum\nbashkiria.ru\nbashkiria.su\nbasicserver.io\nbasilicata.it\nbasketball\nbaths.museum\nbato.tochigi.jp\nbatsfjord.no\nbauern.museum\nbauhaus\nbayern\nbb\nbbc\nbbs.tr\nbbt\nbbva\nbc.ca\nbc.platform.sh\nbcg\nbci.dnstrace.pro\nbcn\nbd.se\nbe\nbe.ax\nbe.eu.org\nbe.gy\nbeagleboard.io\nbearalvahki.no\nbeardu.no\nbeats\nbeauty\nbeauxarts.museum\nbedzin.pl\nbeeldengeluid.museum\nbeep.pl\nbeer\nbeiarn.no\nbel.tr\nbelau.pw\nbelem.br\nbellevue.museum\nbelluno.it\nbenevento.it\nbentley\nbeppu.oita.jp\nberg.no\nbergamo.it\nbergbau.museum\nbergen.no\nberkeley.museum\nberlevag.no\nberlin\nberlin.museum\nbern.museum\nbeskidy.pl\nbest\nbestbuy\nbet\nbet.ar\nbeta.bounty-full.com\nbeta.tailscale.net\nbetainabox.com\nbetter-than.tv\nbf\nbg\nbg.eu.org\nbg.it\nbh\nbharti\nbhz.br\nbi\nbi.it\nbialowieza.pl\nbialystok.pl\nbib.br\nbib.ve\nbibai.hokkaido.jp\nbible\nbible.museum\nbid\nbiei.hokkaido.jp\nbielawa.pl\nbiella.it\nbieszczady.pl\nbievat.no\nbifuka.hokkaido.jp\nbihar.in\nbihoro.hokkaido.jp\nbike\nbilbao.museum\nbill.museum\nbindal.no\nbing\nbingo\nbio\nbio.br\nbip.sh\nbir.ru\nbiratori.hokkaido.jp\nbirdart.museum\nbirkenes.no\nbirthplace.museum\nbitbridge.net\nbitbucket.io\nbitter.jp\nbiz\nbiz.at\nbiz.az\nbiz.bb\nbiz.cy\nbiz.dk\nbiz.et\nbiz.fj\nbiz.gl\nbiz.id\nbiz.in\nbiz.ki\nbiz.ls\nbiz.mv\nbiz.mw\nbiz.my\nbiz.ni\nbiz.nr\nbiz.pk\nbiz.pl\nbiz.pr\nbiz.ss\nbiz.tj\nbiz.tr\nbiz.tt\nbiz.ua\nbiz.vn\nbiz.wf\nbiz.zm\nbizen.okayama.jp\nbj\nbj.cn\nbjarkoy.no\nbjerkreim.no\nbjugn.no\nbl.it\nblack\nblackbaudcdn.net\nblackfriday\nblockbuster\nblog\nblog.bo\nblog.br\nblog.gt\nblog.kg\nblog.vu\nblogdns.com\nblogdns.net\nblogdns.org\nblogsite.org\nblogsite.xyz\nblogspot.ae\nblogspot.al\nblogspot.am\nblogspot.ba\nblogspot.be\nblogspot.bg\nblogspot.bj\nblogspot.ca\nblogspot.cf\nblogspot.ch\nblogspot.cl\nblogspot.co.at\nblogspot.co.id\nblogspot.co.il\nblogspot.co.ke\nblogspot.co.nz\nblogspot.co.uk\nblogspot.co.za\nblogspot.com\nblogspot.com.ar\nblogspot.com.au\nblogspot.com.br\nblogspot.com.by\nblogspot.com.co\nblogspot.com.cy\nblogspot.com.ee\nblogspot.com.eg\nblogspot.com.es\nblogspot.com.mt\nblogspot.com.ng\nblogspot.com.tr\nblogspot.com.uy\nblogspot.cv\nblogspot.cz\nblogspot.de\nblogspot.dk\nblogspot.fi\nblogspot.fr\nblogspot.gr\nblogspot.hk\nblogspot.hr\nblogspot.hu\nblogspot.ie\nblogspot.in\nblogspot.is\nblogspot.it\nblogspot.jp\nblogspot.kr\nblogspot.li\nblogspot.lt\nblogspot.lu\nblogspot.md\nblogspot.mk\nblogspot.mr\nblogspot.mx\nblogspot.my\nblogspot.nl\nblogspot.no\nblogspot.pe\nblogspot.pt\nblogspot.qa\nblogspot.re\nblogspot.ro\nblogspot.rs\nblogspot.ru\nblogspot.se\nblogspot.sg\nblogspot.si\nblogspot.sk\nblogspot.sn\nblogspot.td\nblogspot.tw\nblogspot.ug\nblogspot.vn\nblogsyte.com\nbloomberg\nbloxcms.com\nblue\nbluebite.io\nblush.jp\nbm\nbmd.br\nbmoattachments.org\nbms\nbmw\nbn\nbn.it\nbnpparibas\nbnr.la\nbo\nbo.it\nbo.nordland.no\nbo.telemark.no\nboats\nboavista.br\nbodo.no\nboehringer\nbofa\nbokn.no\nboldlygoingnowhere.org\nboleslawiec.pl\nbolivia.bo\nbologna.it\nbolt.hu\nbolzano-altoadige.it\nbolzano.it\nbom\nbomlo.no\nbond\nbonn.museum\nboo\nboo.jp\nbook\nbooking\nbookonline.app\nboomla.net\nbosch\nbostik\nboston\nboston.museum\nbot\nbotanical.museum\nbotanicalgarden.museum\nbotanicgarden.museum\nbotany.museum\nbounceme.net\nbounty-full.com\nboutique\nboutir.com\nbox\nboxfuse.io\nboy.jp\nboyfriend.jp\nbozen-sudtirol.it\nbozen-suedtirol.it\nbozen.it\nbplaced.com\nbplaced.de\nbplaced.net\nbr\nbr.com\nbr.it\nbradesco\nbrand.se\nbrandywinevalley.museum\nbrasil.museum\nbrasilia.me\nbremanger.no\nbrescia.it\nbridgestone\nbrindisi.it\nbristol.museum\nbritish.museum\nbritishcolumbia.museum\nbroadcast.museum\nbroadway\nbroke-it.net\nbroker\nbroker.aero\nbronnoy.no\nbronnoysund.no\nbrother\nbrowsersafetymark.io\nbrumunddal.no\nbrunel.museum\nbrussel.museum\nbrussels\nbrussels.museum\nbruxelles.museum\nbryansk.su\nbryne.no\nbs\nbs.it\nbsb.br\nbss.design\nbt\nbt.it\nbu.no\nbudejju.no\nbuild\nbuilders\nbuilding.museum\nbuiltwithdark.com\nbukhara.su\nbulsan-sudtirol.it\nbulsan-suedtirol.it\nbulsan.it\nbungoono.oita.jp\nbungotakada.oita.jp\nbunkyo.tokyo.jp\nburghof.museum\nbus.museum\nbusan.kr\nbushey.museum\nbusiness\nbusiness.in\nbut.jp\nbuy\nbuyshop.jp\nbuyshouses.net\nbuzen.fukuoka.jp\nbuzz\nbv\nbw\nby\nbydgoszcz.pl\nbyen.site\nbygland.no\nbykle.no\nbytom.pl\nbz\nbz.it\nbzh\nc.bg\nc.cdn77.org\nc.la\nc.se\nc66.me\nca\nca-central-1.elasticbeanstalk.com\nca.eu.org\nca.in\nca.it\nca.na\nca.reclaim.cloud\nca.us\ncaa.aero\ncaa.li\ncab\ncable-modem.org\n";

/// Normal suffixes, part 2 of 10.
pub const PSL_MAIN_1: &'static str = "cadaques.museum\ncafe\ncafjs.com\ncagliari.it\ncahcesuolo.no\ncal\ncal.it\ncalabria.it\ncalifornia.museum\ncall\ncaltanissetta.it\ncalvinklein\ncam\ncam.it\ncambridge.museum\ncamdvr.org\ncamera\ncamp\ncampaign.gov.uk\ncampania.it\ncampidano-medio.it\ncampidanomedio.it\ncampinagrande.br\ncampinas.br\ncampobasso.it\ncan.museum\ncanada.museum\ncandypop.jp\ncanon\ncanva-apps.cn\ncanva-apps.com\ncapebreton.museum\ncapetown\ncapital\ncapitalone\ncapoo.jp\ncar\ncaracal.mythic-beasts.com\ncaravan\ncarbonia-iglesias.it\ncarboniaiglesias.it\ncards\ncare\ncareer\ncareers\ncargo.aero\ncarrara-massa.it\ncarraramassa.it\ncarrd.co\ncarrier.museum\ncars\ncartoonart.museum\ncasa\ncasacam.net\ncasadelamoneda.museum\ncase\ncaserta.it\ncash\ncasino\ncasino.hu\ncastle.museum\ncastres.museum\ncat\ncat.ax\ncatania.it\ncatanzaro.it\ncatering\ncatering.aero\ncatfood.jp\ncatholic\ncatholic.edu.au\ncaxias.br\ncb.it\ncba\ncbg.ru\ncbn\ncbre\ncbs\ncc\ncc.ak.us\ncc.al.us\ncc.ar.us\ncc.as.us\ncc.az.us\ncc.ca.us\ncc.co.us\ncc.ct.us\ncc.dc.us\ncc.de.us\ncc.fl.us\ncc.ga.us\ncc.gu.us\ncc.hi.us\ncc.hn\ncc.ia.us\ncc.id.us\ncc.il.us\ncc.in.us\ncc.ks.us\ncc.ky.us\ncc.la.us\ncc.ma.us\ncc.md.us\ncc.me.us\ncc.mi.us\ncc.mn.us\ncc.mo.us\ncc.ms.us\ncc.mt.us\ncc.na\ncc.nc.us\ncc.nd.us\ncc.ne.us\ncc.nh.us\ncc.nj.us\ncc.nm.us\ncc.nv.us\ncc.ny.us\ncc.oh.us\ncc.ok.us\ncc.or.us\ncc.pa.us\ncc.pr.us\ncc.ri.us\ncc.sc.us\ncc.sd.us\ncc.tn.us\ncc.tx.us\ncc.ua\ncc.ut.us\ncc.va.us\ncc.vi.us\ncc.vt.us\ncc.wa.us\ncc.wi.us\ncc.wv.us\ncc.wy.us\ncci.fr\ncd\ncd.eu.org\ncdn-edges.net\ncdn.prod.atlassian-dev.net\ncdn77-ssl.net\nce.gov.br\nce.it\nce.leg.br\ncechire.com\nceltic.museum\ncenter\ncenter.museum\ncentralus.azurestaticapps.net\nceo\ncern\ncertification.aero\ncertmgr.org\ncesena-forli.it\ncesenaforli.it\ncf\ncf-ipfs.com\ncfa\ncfd\ncg\nch\nch.eu.org\nch.it\nch.tc\nch.trendhosting.cloud\nchambagri.fr\nchampionship.aero\nchanel\nchannel\nchannelsdvr.net\ncharity\ncharter.aero\nchase\nchat\nchattanooga.museum\ncheap\ncheap.jp\ncheltenham.museum\ncherkassy.ua\ncherkasy.ua\nchernigov.ua\nchernihiv.ua\nchernivtsi.ua\nchernovtsy.ua\nchesapeakebay.museum\nchiba.jp\nchicago.museum\nchicappa.jp\nchichibu.saitama.jp\nchieti.it\nchigasaki.kanagawa.jp\nchihayaakasaka.osaka.jp\nchijiwa.nagasaki.jp\nchikugo.fukuoka.jp\nchikuho.fukuoka.jp\nchikuhoku.nagano.jp\nchikujo.fukuoka.jp\nchikuma.nagano.jp\nchikusei.ibaraki.jp\nchikushino.fukuoka.jp\nchikuzen.fukuoka.jp\nchildren.museum\nchildrens.museum\nchildrensgarden.museum\nchillout.jp\nchimkent.su\nchino.nagano.jp\nchintai\nchippubetsu.hokkaido.jp\nchips.jp\nchiropractic.museum\nchirurgiens-dentistes-en-france.fr\nchirurgiens-dentistes.fr\nchiryu.aichi.jp\nchita.aichi.jp\nchitose.hokkaido.jp\nchiyoda.gunma.jp\nchiyoda.tokyo.jp\nchizu.tottori.jp\nchocolate.museum\nchofu.tokyo.jp\nchonan.chiba.jp\nchosei.chiba.jp\nchoshi.chiba.jp\nchowder.jp\nchoyo.kumamoto.jp\nchristiansburg.museum\nchristmas\nchrome\nchtr.k12.ma.us\nchu.jp\nchungbuk.kr\nchungnam.kr\nchuo.chiba.jp\nchuo.fukuoka.jp\nchuo.osaka.jp\nchuo.tokyo.jp\nchuo.yamanashi.jp\nchurch\nci\nci.it\nciao.jp\nciencia.bo\ncieszyn.pl\ncim.br\ncincinnati.museum\ncinema.museum\ncipriani\ncircle\ncircus.museum\ncisco\nciscofreak.com\ncistron.nl\ncitadel\nciti\ncitic\ncity\ncity.hu\ncityeats\ncivilaviation.aero\ncivilisation.museum\ncivilization.museum\ncivilwar.museum\nck.ua\ncl\ncl.it\nclaims\nclan.rip\ncleaning\nclerk.app\nclerkstage.app\ncleverapps.io\nclick\nclicketcloud.com\nclickrising.net\nclinic\nclinique\nclinton.museum\nclock.museum\nclothing\ncloud\ncloud-fr1.unispace.io\ncloud.fedoraproject.org\ncloud.goog\ncloud.interhostsolutions.be\ncloud.jelastic.open.tim.it\ncloud.nospamproxy.com\ncloud66.ws\ncloud66.zone\ncloudaccess.host\ncloudaccess.net\ncloudapp.net\ncloudapps.digital\ncloudcontrolapp.com\ncloudcontrolled.com\ncloudflare-ipfs.com\ncloudfront.net\ncloudfunctions.net\ncloudjiffy.net\ncloudns.asia\ncloudns.biz\ncloudns.cc\ncloudns.club\ncloudns.eu\ncloudns.in\ncloudns.info\ncloudns.org\ncloudns.pro\ncloudns.pw\ncloudns.us\ncloudsite.builders\ncloudycluster.net\nclub\nclub.aero\nclub.tw\nclubmed\ncm\ncn\ncn-north-1.eb.amazonaws.com.cn\ncn-northwest-1.eb.amazonaws.com.cn\ncn.com\ncn.eu.org\ncn.in\ncn.it\ncn.ua\ncn.vu\ncng.br\ncnpy.gdn\ncnt.br\nco\nco.ae\nco.ag\nco.am\nco.ao\nco.at\nco.bb\nco.bi\nco.bj\nco.bn\nco.business\nco.bw\nco.ca\nco.ci\nco.cl\nco.cm\nco.com\nco.cr\nco.cz\nco.dk\nco.education\nco.events\nco.financial\nco.gg\nco.gl\nco.gy\nco.hu\nco.id\nco.il\nco.im\nco.in\nco.ir\nco.it\nco.je\nco.jp\nco.ke\nco.kr\nco.krd\nco.lc\nco.ls\nco.ma\nco.me\nco.mg\nco.mu\nco.mw\nco.mz\nco.na\nco.network\nco.ni\nco.nl\nco.no\nco.nz\nco.om\nco.pl\nco.place\nco.pn\nco.pw\nco.ro\nco.rs\nco.rw\nco.st\nco.sz\nco.technology\nco.th\nco.tj\nco.tm\nco.tt\nco.tz\nco.ua\nco.ug\nco.uk\nco.us\nco.uz\nco.ve\nco.vi\nco.za\nco.zm\nco.zw\ncoach\ncoal.museum\ncoastaldefence.museum\ncocotte.jp\ncodeberg.page\ncodes\ncodespot.com\ncody.museum\ncoffee\ncog.mi.us\ncol.ng\ncoldwar.museum\ncollection.museum\ncollege\ncollegefan.org\ncologne\ncolonialwilliamsburg.museum\ncoloradoplateau.museum\ncolumbia.museum\ncolumbus.museum\ncom\ncom.ac\ncom.af\ncom.ag\ncom.ai\ncom.al\ncom.am\ncom.ar\ncom.au\ncom.aw\ncom.az\ncom.ba\ncom.bb\ncom.bh\ncom.bi\ncom.bj\ncom.bm\ncom.bn\ncom.bo\ncom.br\ncom.bs\ncom.bt\ncom.by\ncom.bz\ncom.ci\ncom.cm\ncom.cn\ncom.co\ncom.cu\ncom.cv\ncom.cw\ncom.cy\ncom.de\ncom.dm\ncom.do\ncom.dz\ncom.ec\ncom.ee\ncom.eg\ncom.es\ncom.et\ncom.fj\ncom.fm\ncom.fr\ncom.ge\ncom.gh\ncom.gi\ncom.gl\ncom.gn\ncom.gp\ncom.gr\ncom.gt\ncom.gu\ncom.gy\ncom.hk\ncom.hn\ncom.hr\ncom.ht\ncom.im\ncom.in\ncom.io\ncom.iq\ncom.is\ncom.jo\ncom.kg\ncom.ki\ncom.km\ncom.kp\ncom.kw\ncom.ky\ncom.kz\ncom.la\ncom.lb\ncom.lc\ncom.lk\ncom.lr\ncom.lv\ncom.ly\ncom.mg\ncom.mk\ncom.ml\ncom.mo\ncom.ms\ncom.mt\ncom.mu\ncom.mv\ncom.mw\ncom.mx\ncom.my\ncom.na\ncom.nf\ncom.ng\ncom.ni\ncom.nr\ncom.om\ncom.pa\ncom.pe\ncom.pf\ncom.ph\ncom.pk\ncom.pl\ncom.pr\ncom.ps\ncom.pt\ncom.py\ncom.qa\ncom.re\ncom.ro\ncom.ru\ncom.sa\ncom.sb\ncom.sc\ncom.sd\ncom.se\ncom.sg\ncom.sh\ncom.sl\ncom.sn\ncom.so\ncom.ss\ncom.st\ncom.sv\ncom.sy\ncom.tj\ncom.tm\ncom.tn\ncom.to\ncom.tr\ncom.tt\ncom.tw\ncom.ua\ncom.ug\ncom.uy\ncom.uz\ncom.vc\ncom.ve\ncom.vi\ncom.vn\ncom.vu\ncom.ws\ncom.ye\ncom.zm\ncomcast\ncommbank\ncommune.am\ncommunication.museum\ncommunications.museum\ncommunity\ncommunity-pro.de\ncommunity-pro.net\ncommunity.museum\ncomo.it\ncompany\ncompare\ncomputer\ncomputer.museum\ncomputerhistory.museum\ncomsec\ncondos\nconf.au\nconf.lv\nconf.se\nconference.aero\nconn.uk\nconstruction\nconsulado.st\nconsultant.aero\nconsulting\nconsulting.aero\ncontact\ncontagem.br\ncontemporary.museum\ncontemporaryart.museum\ncontractors\ncontrol.aero\nconvent.museum\ncooking\ncookingchannel\ncool\ncoolblog.jp\ncoop\ncoop.ar\ncoop.br\ncoop.ht\ncoop.in\ncoop.km\ncoop.mv\ncoop.mw\ncoop.py\ncoop.rw\ncoop.tt\ncooperativa.bo\ncopenhagen.museum\ncopro.uk\ncorporation.museum\ncorsica\ncorvette.museum\ncosenza.it\ncostume.museum\ncouchpotatofries.org\ncouncil.aero\ncountry\ncountryestate.museum\ncounty.museum\ncoupon\ncoupons\ncourses\ncoz.br\ncpa\ncpa.pro\ncq.cn\ncr\ncr.it\ncr.ua\ncrafting.xyz\ncrafts.museum\ncranbrook.museum\ncranky.jp\ncrd.co\ncreation.museum\ncredit\ncreditcard\ncreditunion\ncremona.it\ncrew.aero\ncri.br\ncri.nz\ncricket\ncrimea.ua\ncrotone.it\ncrown\ncrs\ncruise\ncruises\ncs.in\ncs.it\ncs.keliweb.cloud\ncsx.cc\nct.it\nct.us\ncu\ncuiaba.br\ncuisinella\ncultural.museum\nculturalcenter.museum\nculture.museum\ncuneo.it\ncupcake.is\ncuritiba.br\ncurv.dev\ncust.dev.thingdust.io\ncust.disrec.thingdust.io\ncust.prod.thingdust.io\ncust.retrosnub.co.uk\ncust.testing.thingdust.io\ncustom.metacentrum.cz\ncustomer.mythic-beasts.com\ncustomer.speedpartner.de\ncutegirl.jp\ncv\ncv.ua\ncw\ncx\ncx.ua\ncy\ncy.eu.org\ncya.gg\ncyber.museum\ncymru\ncymru.museum\ncyon.link\ncyon.site\ncyou\ncz\ncz.eu.org\ncz.it\nczeladz.pl\nczest.pl\nd.bg\nd.gv.vc\nd.se\ndaa.jp\ndabur\ndad\ndaegu.kr\ndaejeon.kr\ndaemon.panel.gg\ndagestan.ru\ndagestan.su\ndaigo.ibaraki.jp\ndaisen.akita.jp\ndaito.osaka.jp\ndaiwa.hiroshima.jp\ndali.museum\ndallas.museum\ndamnserver.com\ndance\ndaplie.me\ndata\ndatabase.museum\ndate\ndate.fukushima.jp\ndate.hokkaido.jp\ndating\ndatsun\ndattolocal.com\ndattolocal.net\ndattorelay.com\ndattoweb.com\ndavvenjarga.no\ndavvesiida.no\nday\ndazaifu.fukuoka.jp\ndc.us\ndclk\ndd-dns.de\nddns.me\nddns.net\nddns5.com\nddnsfree.com\nddnsgeek.com\nddnsking.com\nddnslive.com\nddnss.de\nddnss.org\nddr.museum\ndds\nde\nde.com\nde.cool\nde.eu.org\nde.gt\nde.ls\nde.md\nde.trendhosting.cloud\nde.us\ndeal\ndealer\ndeals\ndeatnu.no\ndebian.net\ndeca.jp\ndeci.jp\ndecorativearts.museum\ndedibox.fr\ndedyn.io\ndef.br\ndefinima.io\ndefinima.net\ndegree\ndelaware.museum\ndelhi.in\ndelivery\ndell\ndell-ogliastra.it\ndellogliastra.it\ndelmenhorst.museum\ndeloitte\ndelta\ndemo.datacenter.fi\ndemo.datadetect.com\ndemo.jelastic.com\ndemocracia.bo\ndemocrat\ndemon.nl\ndenmark.museum\ndeno-staging.dev\ndeno.dev\ndental\ndentist\ndep.no\ndeporte.bo\ndepot.museum\ndes.br\ndesa.id\ndesi\ndesign\ndesign.aero\ndesign.museum\ndet.br\ndeta.app\ndeta.dev\ndetroit.museum\ndev\ndev-myqnapcloud.com\ndev.br\ndev.static.land\ndev.vu\ndevelopment.run\ndevices.resinstaging.io\ndf.gov.br\ndf.leg.br\ndgca.aero\ndh.bytemark.co.uk\ndhl\ndiadem.cloud\ndiamonds\ndielddanuorri.no\ndiet\ndigick.jp\ndigital\ndinosaur.museum\ndirect\ndirect.quickconnect.cn\ndirect.quickconnect.to\ndirectory\ndiscordsays.com\ndiscordsez.com\ndiscount\ndiscourse.group\ndiscourse.team\ndiscover\ndiscovery.museum\ndish\ndiskstation.eu\ndiskstation.me\ndiskstation.org\ndiskussionsbereich.de\nditchyourip.com\ndivtasvuodna.no\ndivttasvuotna.no\ndiy\ndj\ndk\ndk.eu.org\ndlugoleka.pl\ndm\ndn.ua\ndnepropetrovsk.ua\ndni.us\ndnipropetrovsk.ua\ndnp\ndnsalias.com\ndnsalias.net\ndnsalias.org\ndnsdojo.com\ndnsdojo.net\ndnsdojo.org\ndnsfor.me\ndnshome.de\ndnsiskinky.com\ndnsking.ch\ndnsup.net\ndnsupdate.info\ndnsupdater.de\ndo\ndocs\ndoctor\ndoes-it.net\ndoesntexist.com\ndoesntexist.org\ndog\ndolls.museum\ndomains\ndonetsk.ua\ndonna.no\ndonostia.museum\ndontexist.com\ndontexist.net\ndontexist.org\ndoomdns.com\ndoomdns.org\ndopaas.com\ndoshi.yamanashi.jp\ndot\ndovre.no\ndownload\ndp.ua\ndr.in\ndr.na\ndr.tr\ndrammen.no\ndrangedal.no\ndray-dns.de\ndrayddns.com\ndraydns.de\ndreamhosters.com\ndrive\ndrobak.no\ndrr.ac\ndrud.io\ndrud.us\ndscloud.biz\ndscloud.me\ndscloud.mobi\ndsmynas.com\ndsmynas.net\ndsmynas.org\ndst.mi.us\ndtv\ndubai\nduckdns.org\ndunlop\ndupont\ndurban\ndurham.museum\ndvag\ndvr\ndvrcam.info\ndvrdns.org\ndy.fi\ndyn-berlin.de\ndyn-ip24.de\ndyn-o-saur.com\ndyn-vpn.de\ndyn.cosidns.de\ndyn.ddnss.de\ndyn.home-webserver.de\ndyn53.io\ndynalias.com\ndynalias.net\ndynalias.org\ndynamic-dns.info\ndynamisches-dns.de\ndynathome.net\ndyndns-at-home.com\ndyndns-at-work.com\ndyndns-blog.com\ndyndns-free.com\ndyndns-home.com\ndyndns-ip.com\ndyndns-mail.com\ndyndns-office.com\ndyndns-pics.com\ndyndns-remote.com\ndyndns-server.com\ndyndns-web.com\ndyndns-wiki.com\ndyndns-work.com\ndyndns.biz\ndyndns.dappnode.io\ndyndns.ddnss.de\ndyndns.info\ndyndns.org\ndyndns.tv\ndyndns.ws\ndyndns1.de\ndynns.com\ndynserv.org\ndynu.net\ndynv6.net\ndynvpn.de\ndyroy.no\ndz\ne.bg\ne.se\ne12.ve\ne164.arpa\ne4.cz\nearth\neast-kazakhstan.su\neastafrica.museum\neastasia.azurestaticapps.net\neastcoast.museum\neastus2.azurestaticapps.net\neasypanel.app\neasypanel.host\neat\neating-organic.net\neaton.mi.us\nebetsu.hokkaido.jp\nebina.kanagawa.jp\nebino.miyazaki.jp\nebiz.tw\nec\nechizen.fukui.jp\necn.br\neco\neco.bj\neco.br\necologia.bo\necommerce-shop.pl\necono.bj\neconomia.bo\ned.ao\ned.ci\ned.cr\ned.jp\ned.pw\nedeka\nedgeapp.net\nedgecompute.app\nedgekey-staging.net\nedgekey.net\nedgestack.me\nedgesuite-staging.net\nedgesuite.net\neditorx.io\nedogawa.tokyo.jp\nedu\nedu.ac\nedu.af\nedu.al\nedu.ar\nedu.au\nedu.az\nedu.ba\nedu.bb\nedu.bh\nedu.bi\nedu.bj\nedu.bm\nedu.bn\nedu.bo\nedu.br\nedu.bs\nedu.bt\nedu.bz\nedu.ci\nedu.cn\nedu.co\nedu.cu\nedu.cv\nedu.cw\nedu.dm\nedu.do\nedu.dz\nedu.ec\nedu.ee\nedu.eg\nedu.es\nedu.et\nedu.eu.org\nedu.fm\nedu.gd\nedu.ge\nedu.gh\nedu.gi\nedu.gl\nedu.gn\nedu.gp\nedu.gr\nedu.gt\nedu.gu\nedu.gy\nedu.hk\nedu.hn\nedu.ht\nedu.in\nedu.iq\nedu.is\nedu.it\nedu.jo\nedu.kg\nedu.ki\nedu.km\nedu.kn\nedu.kp\nedu.krd\nedu.kw\nedu.ky\nedu.kz\nedu.la\nedu.lb\nedu.lc\nedu.lk\nedu.lr\nedu.ls\nedu.lv\nedu.ly\nedu.me\nedu.mg\nedu.mk\nedu.ml\nedu.mn\nedu.mo\nedu.ms\nedu.mt\nedu.mv\nedu.mw\nedu.mx\nedu.my\nedu.mz\nedu.ng\nedu.ni\nedu.nr\nedu.om\nedu.pa\nedu.pe\nedu.pf\nedu.ph\nedu.pk\nedu.pl\nedu.pn\nedu.pr\nedu.ps\nedu.pt\nedu.py\nedu.qa\nedu.rs\nedu.ru\nedu.sa\nedu.sb\nedu.sc\nedu.scot\nedu.sd\nedu.sg\nedu.sl\nedu.sn\nedu.so\nedu.ss\nedu.st\nedu.sv\nedu.sy\nedu.tj\nedu.tm\nedu.to\nedu.tr\nedu.tt\nedu.tw\nedu.ua\nedu.uy\nedu.vc\nedu.ve\nedu.vn\nedu.vu\nedu.ws\nedu.ye\nedu.za\nedu.zm\neducation\neducation.museum\neducational.museum\neducator.aero\nedugit.io\nee\nee.eu.org\neero-stage.online\neero.online\neg\negersund.no\negoism.jp\negyptian.museum\nehime.jp\neid.no\neidfjord.no\neidsberg.no\neidskog.no\neidsvoll.no\neigersund.no\neiheiji.fukui.jp\neisenbahn.museum\nekloges.cy\nelasticbeanstalk.com\n";

/// Normal suffixes, part 3 of 10.
pub const PSL_MAIN_2: &'static str = "elblag.pl\nelburg.museum\nelementor.cloud\nelementor.cool\nelk.pl\nelvendrell.museum\nelverum.no\nemail\nemb.kw\nembaixada.st\nembetsu.hokkaido.jp\nembroidery.museum\nemerck\nemergency.aero\nemilia-romagna.it\nemiliaromagna.it\nemp.br\nempresa.bo\nemr.it\nen-root.fr\nen.it\nena.gifu.jp\nencoreapi.com\nencr.app\nencyclopedic.museum\nendofinternet.net\nendofinternet.org\nendoftheinternet.org\nenebakk.no\nenergy\nenf.br\neng.br\neng.pro\nengerdal.no\nengine.aero\nengineer\nengineer.aero\nengineering\nengland.museum\neniwa.hokkaido.jp\nenna.it\nens.tn\nenscaled.sg\nent.platform.sh\nenterprisecloud.nu\nenterprises\nentertainment.aero\nentomology.museum\nenvironment.museum\nenvironmentalconservation.museum\nepilepsy.museum\nepson\nequipment\nequipment.aero\ner.in\nericsson\nerimo.hokkaido.jp\nerni\nerotica.hu\nerotika.hu\nes\nes-1.axarnet.cloud\nes.ax\nes.eu.org\nes.gov.br\nes.kr\nes.leg.br\nesan.hokkaido.jp\nesashi.hokkaido.jp\nesp.br\nesq\nessex.museum\nest-a-la-maison.com\nest-a-la-masion.com\nest-le-patron.com\nest-mon-blogueur.com\nest.pr\nestate\nestate.museum\net\netajima.hiroshima.jp\netc.br\nethnology.museum\neti.br\netisalat\netne.no\netnedal.no\neu\neu-1.evennode.com\neu-2.evennode.com\neu-3.evennode.com\neu-4.evennode.com\neu-central-1.elasticbeanstalk.com\neu-west-1.elasticbeanstalk.com\neu-west-2.elasticbeanstalk.com\neu-west-3.elasticbeanstalk.com\neu.ax\neu.com\neu.encoway.cloud\neu.int\neu.meteorapp.com\neu.org\neu.platform.sh\neu.pythonanywhere.com\neun.eg\neurodir.ru\neurovision\neus\nevenassi.no\nevenes.no\nevents\nevje-og-hornnes.no\nexchange\nexchange.aero\nexeter.museum\nexhibition.museum\nexnet.su\nexpert\nexperts-comptables.fr\nexposed\nexpress\nexpress.aero\nextraspace\nezproxy.kuleuven.be\nf.bg\nf.se\nfage\nfail\nfairwinds\nfaith\nfakefur.jp\nfam.pk\nfamily\nfamily.museum\nfamilyds.com\nfamilyds.net\nfamilyds.org\nfan\nfans\nfantasyleague.cc\nfar.br\nfarm\nfarm.museum\nfarmequipment.museum\nfarmers\nfarmers.museum\nfarmstead.museum\nfarsund.no\nfashion\nfashionstore.jp\nfast\nfastly-edge.com\nfastly-terrarium.com\nfastlylb.net\nfaststacks.net\nfastvps-server.com\nfastvps.host\nfastvps.site\nfauske.no\nfbx-os.fr\nfbxos.fr\nfc.it\nfe.it\nfed.us\nfederation.aero\nfedex\nfedje.no\nfedorainfracloud.org\nfedorapeople.org\nfeedback\nfeira.br\nfem.jp\nfentiger.mythic-beasts.com\nfermo.it\nferrara.it\nferrari\nferrero\nfeste-ip.net\nfet.no\nfetsund.no\nfg.it\nfh-muenster.io\nfh.se\nfhs.no\nfhsk.se\nfhv.se\nfi\nfi.cloudplatform.fi\nfi.cr\nfi.eu.org\nfi.it\nfiat\nfidelity\nfido\nfie.ee\nfield.museum\nfigueres.museum\nfilatelia.museum\nfilegear-au.me\nfilegear-de.me\nfilegear-gb.me\nfilegear-ie.me\nfilegear-jp.me\nfilegear-sg.me\nfilegear.me\nfilm\nfilm.hu\nfilm.museum\nfin.ci\nfin.ec\nfin.tn\nfinal\nfinance\nfinancial\nfineart.museum\nfinearts.museum\nfinland.museum\nfinnoy.no\nfire\nfirebaseapp.com\nfirenze.it\nfirestone\nfirewall-gateway.com\nfirewall-gateway.de\nfirewall-gateway.net\nfirewalledreplit.co\nfireweb.app\nfirm.co\nfirm.dk\nfirm.ht\nfirm.in\nfirm.nf\nfirm.ng\nfirm.ro\nfirm.ve\nfirmdale\nfish\nfishing\nfit\nfitjar.no\nfitness\nfj\nfj.cn\nfjaler.no\nfjell.no\nfl.us\nfla.no\nflakstad.no\nflanders.museum\nflap.id\nflatanger.no\nfldrv.com\nflekkefjord.no\nflesberg.no\nflickr\nflier.jp\nflight.aero\nflights\nflir\nflog.br\nfloppy.jp\nflora.no\nflorence.it\nflorida.museum\nfloripa.br\nflorist\nfloro.no\nflowers\nflt.cloud.muni.cz\nfly\nfly.dev\nflynnhosting.net\nfm\nfm.br\nfm.it\nfm.no\nfnc.fr-par.scw.cloud\nfnd.br\nfnwk.site\nfo\nfoggia.it\nfolionetwork.site\nfolkebibl.no\nfolldal.no\nfoo\nfood\nfoodnetwork\nfool.jp\nfootball\nfor-better.biz\nfor-more.biz\nfor-our.info\nfor-some.biz\nfor-the.biz\nforce.museum\nford\nforde.no\nforex\nforgeblocks.com\nforgot.her.name\nforgot.his.name\nforli-cesena.it\nforlicesena.it\nforsale\nforsand.no\nfortal.br\nforte.id\nfortmissoula.museum\nfortworth.museum\nforum\nforum.hu\nforumz.info\nfosnes.no\nfot.br\nfoundation\nfoundation.museum\nfox\nfoz.br\nfr\nfr-1.paas.massivegrid.net\nfr-par-1.baremetal.scw.cloud\nfr-par-2.baremetal.scw.cloud\nfr.eu.org\nfr.it\nfra1-de.cloudjiffy.net\nframer.app\nframer.media\nframer.photos\nframer.website\nframer.wiki\nframercanvas.com\nfrana.no\nfrancaise.museum\nfrankfurt.museum\nfranziskaner.museum\nfredrikstad.no\nfree\nfree.hr\nfreebox-os.com\nfreebox-os.fr\nfreeboxos.com\nfreeboxos.fr\nfreeddns.org\nfreeddns.us\nfreedesktop.org\nfreemasonry.museum\nfreemyip.com\nfreesite.host\nfreetls.fastly.net\nfrei.no\nfreiburg.museum\nfrenchkiss.jp\nfresenius\nfribourg.museum\nfriuli-v-giulia.it\nfriuli-ve-giulia.it\nfriuli-vegiulia.it\nfriuli-venezia-giulia.it\nfriuli-veneziagiulia.it\nfriuli-vgiulia.it\nfriuliv-giulia.it\nfriulive-giulia.it\nfriulivegiulia.it\nfriulivenezia-giulia.it\nfriuliveneziagiulia.it\nfriulivgiulia.it\nfrl\nfrog.museum\nfrogans\nfrogn.no\nfroland.no\nfrom-ak.com\nfrom-al.com\nfrom-ar.com\nfrom-az.net\nfrom-ca.com\nfrom-co.net\nfrom-ct.com\nfrom-dc.com\nfrom-de.com\nfrom-fl.com\nfrom-ga.com\nfrom-hi.com\nfrom-ia.com\nfrom-id.com\nfrom-il.com\nfrom-in.com\nfrom-ks.com\nfrom-ky.com\nfrom-la.net\nfrom-ma.com\nfrom-md.com\nfrom-me.org\nfrom-mi.com\nfrom-mn.com\nfrom-mo.com\nfrom-ms.com\nfrom-mt.com\nfrom-nc.com\nfrom-nd.com\nfrom-ne.com\nfrom-nh.com\nfrom-nj.com\nfrom-nm.com\nfrom-nv.com\nfrom-ny.net\nfrom-oh.com\nfrom-ok.com\nfrom-or.com\nfrom-pa.com\nfrom-pr.com\nfrom-ri.com\nfrom-sc.com\nfrom-sd.com\nfrom-tn.com\nfrom-tx.com\nfrom-ut.com\nfrom-va.com\nfrom-vt.com\nfrom-wa.com\nfrom-wi.com\nfrom-wv.com\nfrom-wy.com\nfrom.hr\nfrontdoor\nfrontier\nfrosinone.it\nfrosta.no\nfroya.no\nfst.br\nftpaccess.cc\nftr\nfuchu.hiroshima.jp\nfuchu.tokyo.jp\nfuchu.toyama.jp\nfudai.iwate.jp\nfuefuki.yamanashi.jp\nfuel.aero\nfuettertdasnetz.de\nfuji.shizuoka.jp\nfujieda.shizuoka.jp\nfujiidera.osaka.jp\nfujikawa.shizuoka.jp\nfujikawa.yamanashi.jp\nfujikawaguchiko.yamanashi.jp\nfujimi.nagano.jp\nfujimi.saitama.jp\nfujimino.saitama.jp\nfujinomiya.shizuoka.jp\nfujioka.gunma.jp\nfujisato.akita.jp\nfujisawa.iwate.jp\nfujisawa.kanagawa.jp\nfujishiro.ibaraki.jp\nfujitsu\nfujiyoshida.yamanashi.jp\nfukagawa.hokkaido.jp\nfukaya.saitama.jp\nfukuchi.fukuoka.jp\nfukuchiyama.kyoto.jp\nfukudomi.saga.jp\nfukui.fukui.jp\nfukui.jp\nfukumitsu.toyama.jp\nfukuoka.jp\nfukuroi.shizuoka.jp\nfukusaki.hyogo.jp\nfukushima.fukushima.jp\nfukushima.hokkaido.jp\nfukushima.jp\nfukuyama.hiroshima.jp\nfun\nfunabashi.chiba.jp\nfunagata.yamagata.jp\nfunahashi.toyama.jp\nfunctions.fnc.fr-par.scw.cloud\nfund\nfundacio.museum\nfuoisku.no\nfuossko.no\nfurano.hokkaido.jp\nfurniture\nfurniture.museum\nfurubira.hokkaido.jp\nfurudono.fukushima.jp\nfurukawa.miyagi.jp\nfusa.no\nfuso.aichi.jp\nfussa.tokyo.jp\nfutaba.fukushima.jp\nfutbol\nfutsu.nagasaki.jp\nfuttsu.chiba.jp\nfuturehosting.at\nfuturemailing.at\nfvg.it\nfyi\nfylkesbibl.no\nfyresdal.no\ng.bg\ng.se\ng.vbrplsbx.io\ng12.br\nga\nga.us\ngaivuotna.no\ngal\ngallery\ngallery.museum\ngallo\ngallup\ngalsa.no\ngamagori.aichi.jp\ngame\ngame-host.org\ngame-server.cc\ngame.tw\ngames\ngames.hu\ngamo.shiga.jp\ngamvik.no\ngangaviika.no\ngangwon.kr\ngap\ngarden\ngarden.museum\ngateway.museum\ngaular.no\ngausdal.no\ngay\ngb\ngb.net\ngbiz\ngc.ca\ngd\ngd.cn\ngda.pl\ngdansk.pl\ngdn\ngdynia.pl\nge\nge.it\ngea\ngeek.nz\ngeekgalaxy.com\ngeelvinck.museum\ngehirn.ne.jp\ngeisei.kochi.jp\ngemological.museum\ngen.in\ngen.mi.us\ngen.ng\ngen.nz\ngen.tr\ngenkai.saga.jp\ngenoa.it\ngenova.it\ngent\ngentapps.com\ngenting\ngentlentapis.com\ngeo.br\ngeology.museum\ngeometre-expert.fr\ngeorge\ngeorgia.museum\ngeorgia.su\ngetmyip.com\ngets-it.net\ngf\ngg\ngg.ax\nggee\nggf.br\ngh\nghost.io\ngi\ngiehtavuoatna.no\ngiessen.museum\ngift\ngifts\ngifu.gifu.jp\ngifu.jp\ngiize.com\ngildeskal.no\nginan.gifu.jp\nginowan.okinawa.jp\nginoza.okinawa.jp\ngirlfriend.jp\ngirly.jp\ngiske.no\ngit-pages.rit.edu\ngit-repos.de\ngitapp.si\ngithub.io\ngithubpreview.dev\ngithubusercontent.com\ngitlab.io\ngitpage.si\ngives\ngiving\ngjemnes.no\ngjerdrum.no\ngjerstad.no\ngjesdal.no\ngjovik.no\ngl\nglas.museum\nglass\nglass.museum\ngle\ngleeze.com\ngliding.aero\nglitch.me\ngliwice.pl\nglobal\nglobal.prod.fastly.net\nglobal.ssl.fastly.net\nglobo\nglogow.pl\ngloomy.jp\ngloppen.no\nglug.org.uk\ngm\ngmail\ngmbh\ngmina.pl\ngmo\ngmx\ngn\ngniezno.pl\ngo.ci\ngo.cr\ngo.dyndns.org\ngo.gov.br\ngo.id\ngo.it\ngo.jp\ngo.ke\ngo.kr\ngo.leg.br\ngo.pw\ngo.th\ngo.tj\ngo.tz\ngo.ug\ngob.ar\ngob.bo\ngob.cl\ngob.do\ngob.ec\ngob.es\ngob.gt\ngob.hn\ngob.mx\ngob.ni\ngob.pa\ngob.pe\ngob.pk\ngob.sv\ngob.ve\ngobo.wakayama.jp\ngodaddy\ngodo.gifu.jp\ngoiania.br\ngoip.de\ngojome.akita.jp\ngok.pk\ngokase.miyazaki.jp\ngol.no\ngold\ngoldpoint\ngolf\ngolffan.us\ngon.pk\ngonna.jp\ngonohe.aomori.jp\ngoo\ngoodyear\ngoog\ngoogle\ngoogleapis.com\ngooglecode.com\ngop\ngop.pk\ngorge.museum\ngorizia.it\ngorlice.pl\ngos.pk\ngose.nara.jp\ngosen.niigata.jp\ngoshiki.hyogo.jp\ngot\ngotdns.ch\ngotdns.com\ngotdns.org\ngotemba.shizuoka.jp\ngoto.nagasaki.jp\ngotpantheon.com\ngotsu.shimane.jp\ngoupile.fr\ngouv.ci\ngouv.fr\ngouv.ht\ngouv.km\ngouv.ml\ngouv.sn\ngov\ngov.ac\ngov.ae\ngov.af\ngov.al\ngov.ar\ngov.as\ngov.au\ngov.az\ngov.ba\ngov.bb\ngov.bf\ngov.bh\ngov.bm\ngov.bn\ngov.br\ngov.bs\ngov.bt\ngov.by\ngov.bz\ngov.cd\ngov.cl\ngov.cm\ngov.cn\ngov.co\ngov.cu\ngov.cx\ngov.cy\ngov.dm\ngov.do\ngov.dz\ngov.ec\ngov.ee\ngov.eg\ngov.et\ngov.fj\ngov.gd\ngov.ge\ngov.gh\ngov.gi\ngov.gn\ngov.gr\ngov.gu\ngov.gy\ngov.hk\ngov.ie\ngov.il\ngov.in\ngov.iq\ngov.ir\ngov.is\ngov.it\ngov.jo\ngov.kg\ngov.ki\ngov.km\ngov.kn\ngov.kp\ngov.kw\ngov.kz\ngov.la\ngov.lb\ngov.lc\ngov.lk\ngov.lr\ngov.ls\ngov.lt\ngov.lv\ngov.ly\ngov.ma\ngov.me\ngov.mg\ngov.mk\ngov.ml\ngov.mn\ngov.mo\ngov.mr\ngov.ms\ngov.mu\ngov.mv\ngov.mw\ngov.my\ngov.mz\ngov.nc.tr\ngov.ng\ngov.nl\ngov.nr\ngov.om\ngov.ph\ngov.pk\ngov.pl\ngov.pn\ngov.pr\ngov.ps\ngov.pt\ngov.py\ngov.qa\ngov.rs\ngov.ru\ngov.rw\ngov.sa\ngov.sb\ngov.sc\ngov.scot\ngov.sd\ngov.sg\ngov.sh\ngov.sl\ngov.so\ngov.ss\ngov.sx\ngov.sy\ngov.tj\ngov.tl\ngov.tm\ngov.tn\ngov.to\ngov.tr\ngov.tt\ngov.tw\ngov.ua\ngov.uk\ngov.vc\ngov.ve\ngov.vn\ngov.ws\ngov.ye\ngov.za\ngov.zm\ngov.zw\ngovernment.aero\ngovt.nz\ngp\ngq\ngr\ngr.com\ngr.eu.org\ngr.it\ngr.jp\ngrainger\ngrajewo.pl\ngran.no\ngrandrapids.museum\ngrane.no\ngranvin.no\ngraphics\ngraphox.us\ngratangen.no\ngratis\ngraz.museum\ngreater.jp\ngreen\ngreta.fr\ngrimstad.no\ngripe\ngriw.gov.pl\ngrocery\ngroks-the.info\ngroks-this.info\ngrondar.za\ngrong.no\ngrosseto.it\ngroundhandling.aero\ngroup\ngroup.aero\ngrozny.ru\ngrozny.su\ngrp.lk\ngru.br\ngrue.no\ngs\ngs.aa.no\ngs.ah.no\ngs.bu.no\ngs.cn\ngs.fm.no\ngs.hl.no\ngs.hm.no\ngs.jan-mayen.no\ngs.mr.no\ngs.nl.no\ngs.nt.no\ngs.of.no\ngs.ol.no\ngs.oslo.no\ngs.rl.no\ngs.sf.no\ngs.st.no\ngs.svalbard.no\ngs.tm.no\ngs.tr.no\ngs.va.no\ngs.vf.no\ngsj.bz\ngsm.pl\ngt\ngu\ngu.us\nguam.gu\nguardian\ngub.uy\ngucci\nguernsey.museum\nguge\nguide\nguitars\ngujarat.in\ngujo.gifu.jp\ngulen.no\ngunma.jp\nguovdageaidnu.no\nguru\ngushikami.okinawa.jp\ngv.ao\ngv.at\ngv.vc\ngw\ngwangju.kr\ngx.cn\ngy\ngyeongbuk.kr\ngyeonggi.kr\ngyeongnam.kr\ngyokuto.kumamoto.jp\ngz.cn\nh.bg\nh.se\nha.cn\nha.no\nhabikino.osaka.jp\nhabmer.no\nhaboro.hokkaido.jp\nhacca.jp\nhachijo.tokyo.jp\nhachinohe.aomori.jp\nhachioji.tokyo.jp\nhachirogata.akita.jp\nhadano.kanagawa.jp\nhadsel.no\nhaebaru.okinawa.jp\nhaga.tochigi.jp\nhagebostad.no\nhagi.yamaguchi.jp\nhaibara.shizuoka.jp\nhair\nhakata.fukuoka.jp\nhakodate.hokkaido.jp\nhakone.kanagawa.jp\nhakuba.nagano.jp\nhakui.ishikawa.jp\nhakusan.ishikawa.jp\nhalden.no\nhalf.host\nhalloffame.museum\nhalsa.no\nham-radio-op.net\nhamada.shimane.jp\nhamamatsu.shizuoka.jp\nhamar.no\nhamaroy.no\nhamatama.saga.jp\nhamatonbetsu.hokkaido.jp\nhamburg\nhamburg.museum\nhammarfeasta.no\nhammerfest.no\nhamura.tokyo.jp\nhanamaki.iwate.jp\nhanamigawa.chiba.jp\nhanawa.fukushima.jp\nhanda.aichi.jp\nhandcrafted.jp\nhandson.museum\nhanggliding.aero\nhangout\nhannan.osaka.jp\nhanno.saitama.jp\nhanyu.saitama.jp\nhapmir.no\nhappou.akita.jp\nhara.nagano.jp\nharam.no\nhareid.no\nharima.hyogo.jp\nharstad.no\nharvestcelebration.museum\nhasama.oita.jp\nhasami.nagasaki.jp\nhashbang.sh\nhashikami.aomori.jp\nhashima.gifu.jp\nhashimoto.wakayama.jp\nhasuda.saitama.jp\nhasura-app.io\nhasura.app\nhasvik.no\nhatogaya.saitama.jp\nhatoyama.saitama.jp\nhatsukaichi.hiroshima.jp\nhattfjelldal.no\nhaugesund.no\nhaus\nhawaii.museum\nhayakawa.yamanashi.jp\nhayashima.okayama.jp\nhazu.aichi.jp\nhb.cldmail.ru\nhb.cn\nhbo\nhdfc\nhdfcbank\nhe.cn\nhealth\nhealth-carereform.com\nhealth.museum\nhealth.nz\nhealth.vn\nhealthcare\nheavy.jp\nheguri.nara.jp\nheimatunduhren.museum\nhekinan.aichi.jp\nhellas.museum\nhelp\nhelsinki\nhelsinki.museum\nhembygdsforbund.museum\nhemne.no\nhemnes.no\nhemsedal.no\nhepforge.org\nher.jp\nherad.no\nhere\nhere-for-more.info\nheritage.museum\nhermes\nherokuapp.com\nherokussl.com\nheroy.more-og-romsdal.no\nheroy.nordland.no\nheteml.net\nhgtv\nhi.cn\nhi.us\nhicam.net\nhichiso.gifu.jp\nhida.gifu.jp\nhidaka.hokkaido.jp\nhidaka.kochi.jp\nhidaka.saitama.jp\nhidaka.wakayama.jp\nhidora.com\nhigashi.fukuoka.jp\nhigashi.fukushima.jp\nhigashi.okinawa.jp\nhigashiagatsuma.gunma.jp\n";

/// Normal suffixes, part 4 of 10.
pub const PSL_MAIN_3: &'static str = "higashichichibu.saitama.jp\nhigashihiroshima.hiroshima.jp\nhigashiizu.shizuoka.jp\nhigashiizumo.shimane.jp\nhigashikagawa.kagawa.jp\nhigashikagura.hokkaido.jp\nhigashikawa.hokkaido.jp\nhigashikurume.tokyo.jp\nhigashimatsushima.miyagi.jp\nhigashimatsuyama.saitama.jp\nhigashimurayama.tokyo.jp\nhigashinaruse.akita.jp\nhigashine.yamagata.jp\nhigashiomi.shiga.jp\nhigashiosaka.osaka.jp\nhigashishirakawa.gifu.jp\nhigashisumiyoshi.osaka.jp\nhigashitsuno.kochi.jp\nhigashiura.aichi.jp\nhigashiyama.kyoto.jp\nhigashiyamato.tokyo.jp\nhigashiyodogawa.osaka.jp\nhigashiyoshino.nara.jp\nhiho.jp\nhiji.oita.jp\nhikari.yamaguchi.jp\nhikawa.shimane.jp\nhikimi.shimane.jp\nhikone.shiga.jp\nhimeji.hyogo.jp\nhimeshima.oita.jp\nhimi.toyama.jp\nhino.tokyo.jp\nhino.tottori.jp\nhinode.tokyo.jp\nhinohara.tokyo.jp\nhioki.kagoshima.jp\nhiphop\nhippy.jp\nhirado.nagasaki.jp\nhiraizumi.iwate.jp\nhirakata.osaka.jp\nhiranai.aomori.jp\nhirara.okinawa.jp\nhirata.fukushima.jp\nhiratsuka.kanagawa.jp\nhiraya.nagano.jp\nhirogawa.wakayama.jp\nhirokawa.fukuoka.jp\nhirono.fukushima.jp\nhirono.iwate.jp\nhiroo.hokkaido.jp\nhirosaki.aomori.jp\nhiroshima.jp\nhisamitsu\nhisayama.fukuoka.jp\nhistoire.museum\nhistorical.museum\nhistoricalsociety.museum\nhistorichouses.museum\nhistorisch.museum\nhistorisches.museum\nhistory.museum\nhistoryofscience.museum\nhita.oita.jp\nhitachi\nhitachi.ibaraki.jp\nhitachinaka.ibaraki.jp\nhitachiomiya.ibaraki.jp\nhitachiota.ibaraki.jp\nhitra.no\nhiv\nhizen.saga.jp\nhjartdal.no\nhjelmeland.no\nhk\nhk.cn\nhk.com\nhk.org\nhkt\nhl.cn\nhl.no\nhlx.live\nhlx.page\nhlx3.page\nhm\nhm.no\nhn\nhn.cn\nhobby-site.com\nhobby-site.org\nhobol.no\nhockey\nhof.no\nhofu.yamaguchi.jp\nhokkaido.jp\nhokksund.no\nhokuryu.hokkaido.jp\nhokuto.hokkaido.jp\nhokuto.yamanashi.jp\nhol.no\nholdings\nhole.no\nholiday\nholmestrand.no\nholtalen.no\nholy.jp\nhome-webserver.de\nhome.dyndns.org\nhomebuilt.aero\nhomedepot\nhomedns.org\nhomeftp.net\nhomeftp.org\nhomegoods\nhomeip.net\nhomelink.one\nhomelinux.com\nhomelinux.net\nhomelinux.org\nhomeoffice.gov.uk\nhomes\nhomesecuritymac.com\nhomesecuritypc.com\nhomesense\nhomesklep.pl\nhomeunix.com\nhomeunix.net\nhomeunix.org\nhonai.ehime.jp\nhonbetsu.hokkaido.jp\nhonda\nhonefoss.no\nhongo.hiroshima.jp\nhonjo.akita.jp\nhonjo.saitama.jp\nhonjyo.akita.jp\nhoplix.shop\nhopto.me\nhopto.org\nhornindal.no\nhorokanai.hokkaido.jp\nhorology.museum\nhoronobe.hokkaido.jp\nhorse\nhorten.no\nhosp.uk\nhospital\nhost\nhostedpi.com\nhosting\nhosting-cluster.nl\nhostyhosting.io\nhot\nhotel.hu\nhotel.lk\nhotel.tz\nhoteles\nhotels\nhotelwithflight.com\nhotmail\nhouse\nhouse.museum\nhow\nhoyanger.no\nhoylandet.no\nhr\nhr.eu.org\nhra.health\nhs.kr\nhs.run\nhs.zone\nhsbc\nht\nhttpbin.org\nhu\nhu.com\nhu.eu.org\nhu.net\nhughes\nhuissier-justice.fr\nhumanities.museum\nhungry.jp\nhurdal.no\nhurum.no\nhvaler.no\nhyatt\nhyllestad.no\nhyogo.jp\nhyuga.miyazaki.jp\nhyundai\nhzc.io\ni.bg\ni.ng\ni.ph\ni.se\ni234.me\nia.us\niamallama.com\nibara.okayama.jp\nibaraki.ibaraki.jp\nibaraki.jp\nibaraki.osaka.jp\nibestad.no\nibigawa.gifu.jp\nibm\nibxos.it\nic.gov.pl\nicbc\nice\nichiba.tokushima.jp\nichihara.chiba.jp\nichikai.tochigi.jp\nichikawa.chiba.jp\nichikawa.hyogo.jp\nichikawamisato.yamanashi.jp\nichinohe.iwate.jp\nichinomiya.aichi.jp\nichinomiya.chiba.jp\nichinoseki.iwate.jp\nicu\nicurus.jp\nid\nid.au\nid.firewalledreplit.co\nid.forgerock.io\nid.ir\nid.lv\nid.ly\nid.repl.co\nid.us\nide.kyoto.jp\nidf.il\nidrett.no\nidv.hk\nidv.tw\nie\nie.eu.org\nieee\nif.ua\nifm\niglesias-carbonia.it\niglesiascarbonia.it\niheya.okinawa.jp\niida.nagano.jp\niide.yamagata.jp\niijima.nagano.jp\niitate.fukushima.jp\niiyama.nagano.jp\niizuka.fukuoka.jp\niizuna.nagano.jp\nikano\nikaruga.nara.jp\nikata.ehime.jp\nikawa.akita.jp\nikeda.fukui.jp\nikeda.gifu.jp\nikeda.hokkaido.jp\nikeda.nagano.jp\nikeda.osaka.jp\niki.fi\niki.nagasaki.jp\nikoma.nara.jp\nikusaka.nagano.jp\nil\nil.eu.org\nil.us\nilawa.pl\niliadboxos.it\nillustration.museum\nilovecollege.info\nim\nim.it\nimabari.ehime.jp\nimageandsound.museum\nimakane.hokkaido.jp\nimamat\nimari.saga.jp\nimb.br\nimdb\nimizu.toyama.jp\nimmo\nimmobilien\nimperia.it\nimpertrix.com\nimpertrixcdn.com\nin\nin-addr.arpa\nin-berlin.de\nin-brb.de\nin-butter.de\nin-dsl.de\nin-dsl.net\nin-dsl.org\nin-the-band.net\nin-vpn.de\nin-vpn.net\nin-vpn.org\nin.eu.org\nin.na\nin.net\nin.ni\nin.rs\nin.th\nin.ua\nin.us\nina.ibaraki.jp\nina.nagano.jp\nina.saitama.jp\ninabe.mie.jp\ninagawa.hyogo.jp\ninagi.tokyo.jp\ninami.toyama.jp\ninami.wakayama.jp\ninashiki.ibaraki.jp\ninatsuki.fukuoka.jp\ninawashiro.fukushima.jp\ninazawa.aichi.jp\ninc\ninc.hk\nincheon.kr\nind.br\nind.gt\nind.in\nind.kw\nind.tn\nindependent-commission.uk\nindependent-inquest.uk\nindependent-inquiry.uk\nindependent-panel.uk\nindependent-review.uk\ninderoy.no\nindian.museum\nindiana.museum\nindianapolis.museum\nindianmarket.museum\nindie.porn\nindigena.bo\nindustria.bo\nindustries\nine.kyoto.jp\ninf.br\ninf.cu\ninf.mk\ninf.ua\ninfiniti\ninfo\ninfo.at\ninfo.au\ninfo.az\ninfo.bb\ninfo.bj\ninfo.bo\ninfo.co\ninfo.cx\ninfo.ec\ninfo.et\ninfo.fj\ninfo.gu\ninfo.ht\ninfo.hu\ninfo.in\ninfo.ke\ninfo.ki\ninfo.la\ninfo.ls\ninfo.mv\ninfo.na\ninfo.nf\ninfo.ni\ninfo.nr\ninfo.pk\ninfo.pl\ninfo.pr\ninfo.ro\ninfo.sd\ninfo.tn\ninfo.tr\ninfo.tt\ninfo.tz\ninfo.ve\ninfo.vn\ninfo.zm\ning\ning.pa\ningatlan.hu\nink\nino.kochi.jp\ninstance.datadetect.com\ninstances.spawn.cc\ninstantcloud.cn\ninstitute\ninsurance\ninsurance.aero\ninsure\nint\nint.ar\nint.az\nint.bo\nint.ci\nint.co\nint.cv\nint.eu.org\nint.in\nint.is\nint.la\nint.lk\nint.mv\nint.mw\nint.ni\nint.pt\nint.ru\nint.tj\nint.tt\nint.ve\nint.vn\nintelligence.museum\ninteractive.museum\ninternational\ninternet-dns.de\ninternet.in\nintl.tn\nintuit\ninuyama.aichi.jp\ninvestments\ninzai.chiba.jp\nio\nio.in\nio.kg\niobb.net\niopsys.se\nip.linodeusercontent.com\nip6.arpa\nipifony.net\nipiranga\niq\nir\niraq.museum\niris.arpa\nirish\niron.museum\niruma.saitama.jp\nis\nis-a-anarchist.com\nis-a-blogger.com\nis-a-bookkeeper.com\nis-a-bruinsfan.org\nis-a-bulls-fan.com\nis-a-candidate.org\nis-a-caterer.com\nis-a-celticsfan.org\nis-a-chef.com\nis-a-chef.net\nis-a-chef.org\nis-a-conservative.com\nis-a-cpa.com\nis-a-cubicle-slave.com\nis-a-democrat.com\nis-a-designer.com\nis-a-doctor.com\nis-a-financialadvisor.com\nis-a-geek.com\nis-a-geek.net\nis-a-geek.org\nis-a-green.com\nis-a-guru.com\nis-a-hard-worker.com\nis-a-hunter.com\nis-a-knight.org\nis-a-landscaper.com\nis-a-lawyer.com\nis-a-liberal.com\nis-a-libertarian.com\nis-a-linux-user.org\nis-a-llama.com\nis-a-musician.com\nis-a-nascarfan.com\nis-a-nurse.com\nis-a-painter.com\nis-a-patsfan.org\nis-a-personaltrainer.com\nis-a-photographer.com\nis-a-player.com\nis-a-republican.com\nis-a-rockstar.com\nis-a-socialist.com\nis-a-soxfan.org\nis-a-student.com\nis-a-teacher.com\nis-a-techie.com\nis-a-therapist.com\nis-an-accountant.com\nis-an-actor.com\nis-an-actress.com\nis-an-anarchist.com\nis-an-artist.com\nis-an-engineer.com\nis-an-entertainer.com\nis-by.us\nis-certified.com\nis-found.org\nis-gone.com\nis-into-anime.com\nis-into-cars.com\nis-into-cartoons.com\nis-into-games.com\nis-leet.com\nis-lost.org\nis-not-certified.com\nis-saved.org\nis-slick.com\nis-uberleet.com\nis-very-bad.org\nis-very-evil.org\nis-very-good.org\nis-very-nice.org\nis-very-sweet.org\nis-with-theband.com\nis.eu.org\nis.gov.pl\nis.it\nisa-geek.com\nisa-geek.net\nisa-geek.org\nisa-hockeynut.com\nisa.kagoshima.jp\nisa.us\nisahaya.nagasaki.jp\nise.mie.jp\nisehara.kanagawa.jp\nisen.kagoshima.jp\nisernia.it\niserv.dev\niservschule.de\nisesaki.gunma.jp\nishigaki.okinawa.jp\nishikari.hokkaido.jp\nishikawa.fukushima.jp\nishikawa.jp\nishikawa.okinawa.jp\nishinomaki.miyagi.jp\nisla.pr\nisleofman.museum\nismaili\nisshiki.aichi.jp\nissmarterthanyou.com\nist\nistanbul\nisteingeek.de\nistmein.de\nisumi.chiba.jp\nit\nit.ao\nit.com\nit.eu.org\nit1.eur.aruba.jenv-aruba.cloud\nit1.jenv-aruba.cloud\nitabashi.tokyo.jp\nitako.ibaraki.jp\nitakura.gunma.jp\nitami.hyogo.jp\nitano.tokushima.jp\nitau\nitayanagi.aomori.jp\nitcouldbewor.se\nitigo.jp\nito.shizuoka.jp\nitoigawa.niigata.jp\nitoman.okinawa.jp\nits.me\nitv\nivano-frankivsk.ua\nivanovo.su\niveland.no\nivgu.no\niwade.wakayama.jp\niwafune.tochigi.jp\niwaizumi.iwate.jp\niwaki.fukushima.jp\niwakuni.yamaguchi.jp\niwakura.aichi.jp\niwama.ibaraki.jp\niwamizawa.hokkaido.jp\niwanai.hokkaido.jp\niwanuma.miyagi.jp\niwata.shizuoka.jp\niwate.iwate.jp\niwate.jp\niwatsuki.saitama.jp\niwi.nz\niyo.ehime.jp\niz.hr\nizena.okinawa.jp\nizu.shizuoka.jp\nizumi.kagoshima.jp\nizumi.osaka.jp\nizumiotsu.osaka.jp\nizumisano.osaka.jp\nizumizaki.fukushima.jp\nizumo.shimane.jp\nizumozaki.niigata.jp\nizunokuni.shizuoka.jp\nj.bg\nj.layershift.co.uk\nj.scaleforce.com.cy\nj.scaleforce.net\njab.br\njaguar\njambyl.su\njamison.museum\njampa.br\njan-mayen.no\njava\njaworzno.pl\njc.neen.it\njcb\njcloud-ver-jpc.ik-server.com\njcloud.ik-server.com\njcloud.kz\njdevcloud.com\njdf.br\nje\njed.wafaicloud.com\njeep\njefferson.museum\njeju.kr\njelastic.dogado.eu\njelastic.regruhosting.ru\njelastic.saveincloud.net\njelastic.team\njelastic.tsukaeru.net\njele.cloud\njele.club\njele.host\njele.io\njele.site\njelenia-gora.pl\njellybean.jp\njeonbuk.kr\njeonnam.kr\njerusalem.museum\njessheim.no\njetzt\njevnaker.no\njewelry\njewelry.museum\njewish.museum\njewishart.museum\njfk.museum\njgora.pl\njinsekikogen.hiroshima.jp\njio\njl.cn\njll\njls-sto1.elastx.net\njls-sto2.elastx.net\njls-sto3.elastx.net\njmp\njnj\njo\njoboji.iwate.jp\njobs\njobs.tt\njoburg\njoetsu.niigata.jp\njogasz.hu\njohana.toyama.jp\njoinville.br\njolster.no\njondal.no\njor.br\njorpeland.no\njoso.ibaraki.jp\njot\njotelulu.cloud\njournal.aero\njournalism.museum\njournalist.aero\njoy\njoyo.kyoto.jp\njozi.biz\njp\njp.eu.org\njp.kg\njp.md\njp.net\njpmorgan\njpn.com\njprs\njs.cn\njs.org\njs.wpenginepowered.com\nju.mp\njudaica.museum\njudygarland.museum\njuedisches.museum\njuegos\njuif.museum\njuniper\njur.pro\njus.br\njx.cn\nk.bg\nk.se\nk12.ak.us\nk12.al.us\nk12.ar.us\nk12.as.us\nk12.az.us\nk12.ca.us\nk12.co.us\nk12.ct.us\nk12.dc.us\nk12.de.us\nk12.ec\nk12.fl.us\nk12.ga.us\nk12.gu.us\nk12.ia.us\nk12.id.us\nk12.il\nk12.il.us\nk12.in.us\nk12.ks.us\nk12.ky.us\nk12.la.us\nk12.ma.us\nk12.md.us\nk12.me.us\nk12.mi.us\nk12.mn.us\nk12.mo.us\nk12.ms.us\nk12.mt.us\nk12.nc.us\nk12.ne.us\nk12.nh.us\nk12.nj.us\nk12.nm.us\nk12.nv.us\nk12.ny.us\nk12.oh.us\nk12.ok.us\nk12.or.us\nk12.pa.us\nk12.pr.us\nk12.sc.us\nk12.tn.us\nk12.tr\nk12.tx.us\nk12.ut.us\nk12.va.us\nk12.vi\nk12.vi.us\nk12.vt.us\nk12.wa.us\nk12.wi.us\nk12.wy.us\nk8s.fr-par.scw.cloud\nk8s.nl-ams.scw.cloud\nk8s.pl-waw.scw.cloud\nk8s.scw.cloud\nkaas.gg\nkadena.okinawa.jp\nkadogawa.miyazaki.jp\nkadoma.osaka.jp\nkafjord.no\nkaga.ishikawa.jp\nkagami.kochi.jp\nkagamiishi.fukushima.jp\nkagamino.okayama.jp\nkagawa.jp\nkagoshima.jp\nkagoshima.kagoshima.jp\nkaho.fukuoka.jp\nkahoku.ishikawa.jp\nkahoku.yamagata.jp\nkai.yamanashi.jp\nkainan.tokushima.jp\nkainan.wakayama.jp\nkaisei.kanagawa.jp\nkaita.hiroshima.jp\nkaizuka.osaka.jp\nkakamigahara.gifu.jp\nkakegawa.shizuoka.jp\nkakinoki.shimane.jp\nkakogawa.hyogo.jp\nkakuda.miyagi.jp\nkalisz.pl\nkalmykia.ru\nkalmykia.su\nkaluga.su\nkamagaya.chiba.jp\nkamaishi.iwate.jp\nkamakura.kanagawa.jp\nkameoka.kyoto.jp\nkameyama.mie.jp\nkami.kochi.jp\nkami.miyagi.jp\nkamiamakusa.kumamoto.jp\nkamifurano.hokkaido.jp\nkamigori.hyogo.jp\nkamiichi.toyama.jp\nkamiizumi.saitama.jp\nkamijima.ehime.jp\nkamikawa.hokkaido.jp\nkamikawa.hyogo.jp\nkamikawa.saitama.jp\nkamikitayama.nara.jp\nkamikoani.akita.jp\nkamimine.saga.jp\nkaminokawa.tochigi.jp\nkaminoyama.yamagata.jp\nkamioka.akita.jp\nkamisato.saitama.jp\nkamishihoro.hokkaido.jp\nkamisu.ibaraki.jp\nkamisunagawa.hokkaido.jp\nkamitonda.wakayama.jp\nkamitsue.oita.jp\nkamo.kyoto.jp\nkamo.niigata.jp\nkamoenai.hokkaido.jp\nkamogawa.chiba.jp\nkanagawa.jp\nkanan.osaka.jp\nkanazawa.ishikawa.jp\nkanegasaki.iwate.jp\nkaneyama.fukushima.jp\nkaneyama.yamagata.jp\nkani.gifu.jp\nkanie.aichi.jp\nkanmaki.nara.jp\nkanna.gunma.jp\nkannami.shizuoka.jp\nkanonji.kagawa.jp\nkanoya.kagoshima.jp\nkanra.gunma.jp\nkanuma.tochigi.jp\nkanzaki.saga.jp\nkapsi.fi\nkaracol.su\nkaraganda.su\nkarasjohka.no\nkarasjok.no\nkarasuyama.tochigi.jp\nkarate.museum\nkaratsu.saga.jp\nkarelia.su\nkarikatur.museum\nkariwa.niigata.jp\nkariya.aichi.jp\nkarlsoy.no\nkarmoy.no\nkarpacz.pl\nkartuzy.pl\nkaruizawa.nagano.jp\nkarumai.iwate.jp\nkasahara.gifu.jp\nkasai.hyogo.jp\nkasama.ibaraki.jp\nkasamatsu.gifu.jp\nkasaoka.okayama.jp\nkashiba.nara.jp\nkashihara.nara.jp\nkashima.ibaraki.jp\nkashima.saga.jp\nkashiwa.chiba.jp\nkashiwara.osaka.jp\nkashiwazaki.niigata.jp\nkasserver.com\nkasuga.fukuoka.jp\nkasuga.hyogo.jp\nkasugai.aichi.jp\nkasukabe.saitama.jp\nkasumigaura.ibaraki.jp\nkasuya.fukuoka.jp\nkaszuby.pl\nkatagami.akita.jp\nkatano.osaka.jp\nkatashina.gunma.jp\nkatori.chiba.jp\nkatowice.pl\nkatsuragi.nara.jp\nkatsuragi.wakayama.jp\nkatsushika.tokyo.jp\nkatsuura.chiba.jp\nkatsuyama.fukui.jp\n";

/// Normal suffixes, part 5 of 10.
pub const PSL_MAIN_4: &'static str = "kaufen\nkautokeino.no\nkawaba.gunma.jp\nkawachinagano.osaka.jp\nkawagoe.mie.jp\nkawagoe.saitama.jp\nkawaguchi.saitama.jp\nkawahara.tottori.jp\nkawai.iwate.jp\nkawai.nara.jp\nkawaiishop.jp\nkawajima.saitama.jp\nkawakami.nagano.jp\nkawakami.nara.jp\nkawakita.ishikawa.jp\nkawamata.fukushima.jp\nkawaminami.miyazaki.jp\nkawanabe.kagoshima.jp\nkawanehon.shizuoka.jp\nkawanishi.hyogo.jp\nkawanishi.nara.jp\nkawanishi.yamagata.jp\nkawara.fukuoka.jp\nkawasaki.miyagi.jp\nkawatana.nagasaki.jp\nkawaue.gifu.jp\nkawazu.shizuoka.jp\nkayabe.hokkaido.jp\nkazimierz-dolny.pl\nkazo.saitama.jp\nkazuno.akita.jp\nkddi\nke\nkeisen.fukuoka.jp\nkeliweb.cloud\nkembuchi.hokkaido.jp\nkep.tr\nkepno.pl\nkerryhotels\nkerrylogistics\nkerryproperties\nketrzyn.pl\nkeymachine.de\nkfh\nkg\nkg.kr\nkh.ua\nkhakassia.su\nkharkiv.ua\nkharkov.ua\nkherson.ua\nkhmelnitskiy.ua\nkhmelnytskyi.ua\nkhplay.nl\nki\nkia\nkibichuo.okayama.jp\nkicks-ass.net\nkicks-ass.org\nkids\nkids.museum\nkids.us\nkiev.ua\nkiho.mie.jp\nkihoku.ehime.jp\nkijo.miyazaki.jp\nkikirara.jp\nkikonai.hokkaido.jp\nkikuchi.kumamoto.jp\nkikugawa.shizuoka.jp\nkilatiron.com\nkill.jp\nkilo.jp\nkim\nkimino.wakayama.jp\nkimitsu.chiba.jp\nkimobetsu.hokkaido.jp\nkin.okinawa.jp\nkinder\nkindle\nkinghost.net\nkinko.kagoshima.jp\nkinokawa.wakayama.jp\nkira.aichi.jp\nkirkenes.no\nkirovograd.ua\nkiryu.gunma.jp\nkisarazu.chiba.jp\nkishiwada.osaka.jp\nkiso.nagano.jp\nkisofukushima.nagano.jp\nkisosaki.mie.jp\nkita.kyoto.jp\nkita.osaka.jp\nkita.tokyo.jp\nkitaaiki.nagano.jp\nkitaakita.akita.jp\nkitadaito.okinawa.jp\nkitagata.gifu.jp\nkitagata.saga.jp\nkitagawa.kochi.jp\nkitagawa.miyazaki.jp\nkitahata.saga.jp\nkitahiroshima.hokkaido.jp\nkitakami.iwate.jp\nkitakata.fukushima.jp\nkitakata.miyazaki.jp\nkitami.hokkaido.jp\nkitamoto.saitama.jp\nkitanakagusuku.okinawa.jp\nkitashiobara.fukushima.jp\nkitaura.miyazaki.jp\nkitayama.wakayama.jp\nkitchen\nkiwa.mie.jp\nkiwi\nkiwi.nz\nkiyama.saga.jp\nkiyokawa.kanagawa.jp\nkiyosato.hokkaido.jp\nkiyose.tokyo.jp\nkiyosu.aichi.jp\nkizu.kyoto.jp\nklabu.no\nklepp.no\nklodzko.pl\nkm\nkm.ua\nkmpsp.gov.pl\nkn\nknightpoint.systems\nknowsitall.info\nknx-server.net\nkobayashi.miyazaki.jp\nkobierzyce.pl\nkochi.jp\nkochi.kochi.jp\nkodaira.tokyo.jp\nkoebenhavn.museum\nkoeln\nkoeln.museum\nkofu.yamanashi.jp\nkoga.fukuoka.jp\nkoga.ibaraki.jp\nkoganei.tokyo.jp\nkoge.tottori.jp\nkoka.shiga.jp\nkokonoe.oita.jp\nkokubunji.tokyo.jp\nkolobrzeg.pl\nkomae.tokyo.jp\nkomagane.nagano.jp\nkomaki.aichi.jp\nkomatsu\nkomatsu.ishikawa.jp\nkomatsushima.tokushima.jp\nkomforb.se\nkommunalforbund.se\nkommune.no\nkomono.mie.jp\nkomoro.nagano.jp\nkomvux.se\nkonan.aichi.jp\nkonan.shiga.jp\nkongsberg.no\nkongsvinger.no\nkonin.pl\nkonskowola.pl\nkonsulat.gov.pl\nkonyvelo.hu\nkoobin.events\nkoori.fukushima.jp\nkopervik.no\nkoriyama.fukushima.jp\nkoryo.nara.jp\nkosai.shizuoka.jp\nkosaka.akita.jp\nkosei.shiga.jp\nkosher\nkoshigaya.saitama.jp\nkoshimizu.hokkaido.jp\nkoshu.yamanashi.jp\nkosuge.yamanashi.jp\nkota.aichi.jp\nkoto.shiga.jp\nkoto.tokyo.jp\nkotohira.kagawa.jp\nkotoura.tottori.jp\nkouhoku.saga.jp\nkounosu.saitama.jp\nkouyama.kagoshima.jp\nkouzushima.tokyo.jp\nkoya.wakayama.jp\nkoza.wakayama.jp\nkozagawa.wakayama.jp\nkozaki.chiba.jp\nkozow.com\nkp\nkpmg\nkpn\nkppsp.gov.pl\nkr\nkr.com\nkr.eu.org\nkr.it\nkr.ua\nkraanghke.no\nkragero.no\nkrakow.pl\nkrasnik.pl\nkrasnodar.su\nkrd\nkred\nkrellian.net\nkristiansand.no\nkristiansund.no\nkrodsherad.no\nkrokstadelva.no\nkrym.ua\nks.ua\nks.us\nktistory.com\nkuchinotsu.nagasaki.jp\nkudamatsu.yamaguchi.jp\nkudoyama.wakayama.jp\nkui.hiroshima.jp\nkuji.iwate.jp\nkuju.oita.jp\nkujukuri.chiba.jp\nkuki.saitama.jp\nkuleuven.cloud\nkumagaya.saitama.jp\nkumakogen.ehime.jp\nkumamoto.jp\nkumamoto.kumamoto.jp\nkumano.hiroshima.jp\nkumano.mie.jp\nkumatori.osaka.jp\nkumejima.okinawa.jp\nkumenan.okayama.jp\nkumiyama.kyoto.jp\nkunigami.okinawa.jp\nkunimi.fukushima.jp\nkunisaki.oita.jp\nkunitachi.tokyo.jp\nkunitomi.miyazaki.jp\nkunneppu.hokkaido.jp\nkunohe.iwate.jp\nkunst.museum\nkunstsammlung.museum\nkunstunddesign.museum\nkuokgroup\nkurashiki.okayama.jp\nkurate.fukuoka.jp\nkure.hiroshima.jp\nkurgan.su\nkuriyama.hokkaido.jp\nkurobe.toyama.jp\nkurogi.fukuoka.jp\nkuroishi.aomori.jp\nkuroiso.tochigi.jp\nkuromatsunai.hokkaido.jp\nkuron.jp\nkurotaki.nara.jp\nkurume.fukuoka.jp\nkusatsu.gunma.jp\nkusatsu.shiga.jp\nkushima.miyazaki.jp\nkushimoto.wakayama.jp\nkushiro.hokkaido.jp\nkustanai.ru\nkustanai.su\nkusu.oita.jp\nkutchan.hokkaido.jp\nkutno.pl\nkuwana.mie.jp\nkuzumaki.iwate.jp\nkv.ua\nkvafjord.no\nkvalsund.no\nkvam.no\nkvanangen.no\nkvinesdal.no\nkvinnherad.no\nkviteseid.no\nkvitsoy.no\nkw\nkwp.gov.pl\nkwpsp.gov.pl\nky\nky.us\nkyiv.ua\nkyonan.chiba.jp\nkyotamba.kyoto.jp\nkyotanabe.kyoto.jp\nkyotango.kyoto.jp\nkyoto\nkyoto.jp\nkyowa.akita.jp\nkyowa.hokkaido.jp\nkyuragi.saga.jp\nkz\nl-o-g-i-n.de\nl.bg\nl.se\nla\nla-spezia.it\nla.us\nlaakesvuemie.no\nlab.ms\nlabor.museum\nlabour.museum\nlacaixa\nlahppi.no\nlajolla.museum\nlakas.hu\nlamborghini\nlamer\nlanbib.se\nlancashire.museum\nlancaster\nlancia\nland\nland-4-sale.us\nlandes.museum\nlandrover\nlangevag.no\nlans.museum\nlanxess\nlapy.pl\nlaquila.it\nlardal.no\nlarsson.museum\nlarvik.no\nlasalle\nlaspezia.it\nlat\nlatina.it\nlatino\nlatrobe\nlavagis.no\nlavangen.no\nlaw\nlaw.pro\nlaw.za\nlawyer\nlaz.it\nlazio.it\nlb\nlc\nlc.it\nlcube-server.de\nlds\nle.it\nleadpages.co\nleangaviika.no\nlease\nleasing.aero\nlebesby.no\nlebork.pl\nlebtimnetz.de\nlecce.it\nlecco.it\nleclerc\nleczna.pl\nlefrak\nleg.br\nlegal\nlegnica.pl\nlego\nleikanger.no\nleirfjord.no\nleirvik.no\nleitungsen.de\nleka.no\nleksvik.no\nlel.br\nlelux.site\nlenug.su\nlenvik.no\nlerdal.no\nlesja.no\nlevanger.no\nlewismiller.museum\nlexus\nlezajsk.pl\nlg.jp\nlg.ua\nlgbt\nli\nli.it\nlib.ak.us\nlib.al.us\nlib.ar.us\nlib.as.us\nlib.az.us\nlib.ca.us\nlib.co.us\nlib.ct.us\nlib.dc.us\nlib.de.us\nlib.ee\nlib.fl.us\nlib.ga.us\nlib.gu.us\nlib.hi.us\nlib.ia.us\nlib.id.us\nlib.il.us\nlib.in.us\nlib.ks.us\nlib.ky.us\nlib.la.us\nlib.ma.us\nlib.md.us\nlib.me.us\nlib.mi.us\nlib.mn.us\nlib.mo.us\nlib.ms.us\nlib.mt.us\nlib.nc.us\nlib.nd.us\nlib.ne.us\nlib.nh.us\nlib.nj.us\nlib.nm.us\nlib.nv.us\nlib.ny.us\nlib.oh.us\nlib.ok.us\nlib.or.us\nlib.pa.us\nlib.pr.us\nlib.ri.us\nlib.sc.us\nlib.sd.us\nlib.tn.us\nlib.tx.us\nlib.ut.us\nlib.va.us\nlib.vi.us\nlib.vt.us\nlib.wa.us\nlib.wi.us\nlib.wy.us\nlidl\nlier.no\nlierne.no\nlife\nlifeinsurance\nlifestyle\nlig.it\nlighting\nliguria.it\nlike\nlikes-pie.com\nlikescandy.com\nlillehammer.no\nlillesand.no\nlilly\nlima-city.at\nlima-city.ch\nlima-city.de\nlima-city.rocks\nlima.zone\nlimanowa.pl\nlimited\nlimo\nlincoln\nlincoln.museum\nlindas.no\nlinde\nlindesnes.no\nlink\nlinkyard-cloud.ch\nlinkyard.cloud\nlinz.museum\nlipsy\nlittlestar.jp\nlive\nliving\nliving.museum\nlivinghistory.museum\nlivorno.it\nlk\nlk3.ru\nllc\nllp\nln.cn\nlo.it\nloabat.no\nloan\nloans\nlocalhistory.museum\nlocalhost.daplie.me\nlocalzone.xyz\nlocker\nlocus\nlodi.it\nlodingen.no\nlog.br\nloginline.app\nloginline.dev\nloginline.io\nloginline.services\nloginline.site\nloginto.me\nlogistics.aero\nlogoip.com\nlogoip.de\nlohmus.me\nloisirs.bj\nlol\nlolipop.io\nlolipopmc.jp\nlolitapunk.jp\nlom.it\nlom.no\nlombardia.it\nlombardy.it\nlomo.jp\nlomza.pl\nlon-1.paas.massivegrid.net\nlon-2.paas.massivegrid.net\nlon.wafaicloud.com\nlondon\nlondon.cloudapps.digital\nlondon.museum\nlondrina.br\nloppa.no\nlorenskog.no\nlosangeles.museum\nloseyourip.com\nloten.no\nlotte\nlotto\nlouvre.museum\nlove\nlovepop.jp\nlovesick.jp\nlowicz.pl\nloyalist.museum\nlpages.co\nlpl\nlplfinancial\nlpusercontent.com\nlr\nls\nlt\nlt.eu.org\nlt.it\nlt.ua\nltd\nltd.co.im\nltd.cy\nltd.gi\nltd.hk\nltd.lk\nltd.ng\nltd.ua\nltd.uk\nltda\nlu\nlu.eu.org\nlu.it\nlubartow.pl\nlubin.pl\nlublin.pl\nlucania.it\nlucca.it\nlucerne.museum\nlug.org.uk\nlugansk.ua\nlugs.org.uk\nlukow.pl\nlund.no\nlundbeck\nlunner.no\nluroy.no\nluster.no\nlutsk.ua\nluxe\nluxembourg.museum\nluxury\nluzern.museum\nlv\nlv.eu.org\nlv.ua\nlviv.ua\nly\nlyngdal.no\nlyngen.no\nlynx.mythic-beasts.com\nm.bg\nm.se\nma\nma.gov.br\nma.leg.br\nma.us\nmacapa.br\nmaceio.br\nmacerata.it\nmachida.tokyo.jp\nmacys\nmad.museum\nmadrid\nmadrid.museum\nmaebashi.gunma.jp\nmagazine.aero\nmagnet.page\nmaibara.shiga.jp\nmaif\nmail.pl\nmain.jp\nmaintenance.aero\nmaison\nmaizuru.kyoto.jp\nmakeup\nmakinohara.shizuoka.jp\nmakurazaki.kagoshima.jp\nmalatvuopmi.no\nmalbork.pl\nmallorca.museum\nmalopolska.pl\nmalselv.no\nmalvik.no\nmamurogawa.yamagata.jp\nman\nmanagement\nmanaus.br\nmanchester.museum\nmandal.no\nmango\nmangyshlak.su\nmaniwa.okayama.jp\nmanno.kagawa.jp\nmansion.museum\nmansions.museum\nmantova.it\nmanx.museum\nmaori.nz\nmap\nmap.fastly.net\nmap.fastlylb.net\nmar.it\nmarburg.museum\nmarche.it\nmarine.ru\nmaringa.br\nmaritime.museum\nmaritimo.museum\nmarker.no\nmarket\nmarketing\nmarkets\nmarnardal.no\nmarriott\nmarshalls\nmarugame.kagawa.jp\nmarumori.miyagi.jp\nmaryland.museum\nmarylhurst.museum\nmasaki.ehime.jp\nmaserati\nmasfjorden.no\nmashike.hokkaido.jp\nmashiki.kumamoto.jp\nmashiko.tochigi.jp\nmasoy.no\nmassa-carrara.it\nmassacarrara.it\nmasuda.shimane.jp\nmat.br\nmatera.it\nmatsubara.osaka.jp\nmatsubushi.saitama.jp\nmatsuda.kanagawa.jp\nmatsudo.chiba.jp\nmatsue.shimane.jp\nmatsukawa.nagano.jp\nmatsumae.hokkaido.jp\nmatsumoto.kagoshima.jp\nmatsumoto.nagano.jp\nmatsuno.ehime.jp\nmatsusaka.mie.jp\nmatsushige.tokushima.jp\nmatsushima.miyagi.jp\nmatsuura.nagasaki.jp\nmatsuyama.ehime.jp\nmatsuzaki.shizuoka.jp\nmatta-varjjat.no\nmattel\nmayfirst.info\nmayfirst.org\nmazeplay.com\nmazowsze.pl\nmazury.pl\nmb.ca\nmb.it\nmba\nmc\nmc.ax\nmc.eu.org\nmc.it\nmcdir.me\nmcdir.ru\nmckinsey\nmcpe.me\nmcpre.ru\nmd\nmd.ci\nmd.us\nme\nme.eu.org\nme.in\nme.it\nme.ke\nme.so\nme.ss\nme.tc\nme.tz\nme.uk\nme.us\nme.vu\nmed\nmed.br\nmed.ec\nmed.ee\nmed.ht\nmed.ly\nmed.om\nmed.pa\nmed.pl\nmed.pro\nmed.sa\nmed.sd\nmedecin.fr\nmedecin.km\nmedia\nmedia.aero\nmedia.hu\nmedia.museum\nmedia.pl\nmediatech.by\nmediatech.dev\nmedical.museum\nmedicina.bo\nmedio-campidano.it\nmediocampidano.it\nmedizinhistorisches.museum\nmeeres.museum\nmeet\nmeguro.tokyo.jp\nmein-iserv.de\nmein-vigor.de\nmeinforum.net\nmeiwa.gunma.jp\nmeiwa.mie.jp\nmel.cloudlets.com.au\nmeland.no\nmelbourne\nmeldal.no\nmelhus.no\nmeloy.no\nmembers.linode.com\nmeme\nmemorial\nmemorial.museum\nmemset.net\nmen\nmenu\nmeraker.no\nmerckmsd\nmerseine.nu\nmesaverde.museum\nmesserli.app\nmessina.it\nmesswithdns.com\nmeteorapp.com\nmex.com\nmg\nmg.gov.br\nmg.leg.br\nmh\nmi.it\nmi.th\nmi.us\nmiami\nmiasa.nagano.jp\nmiasta.pl\nmibu.tochigi.jp\nmichigan.museum\nmicrolight.aero\nmicrosoft\nmidatlantic.museum\nmidori.chiba.jp\nmidori.gunma.jp\nmidsund.no\nmidtre-gauldal.no\nmie.jp\nmielec.pl\nmielno.pl\nmifune.kumamoto.jp\nmihama.aichi.jp\nmihama.chiba.jp\nmihama.fukui.jp\nmihama.mie.jp\nmihama.wakayama.jp\nmihara.hiroshima.jp\nmihara.kochi.jp\nmiharu.fukushima.jp\nmiho.ibaraki.jp\nmikasa.hokkaido.jp\nmikawa.yamagata.jp\nmiki.hyogo.jp\nmil\nmil.ac\nmil.ae\nmil.al\nmil.ar\nmil.az\nmil.ba\nmil.bo\nmil.br\nmil.by\nmil.cl\nmil.cn\nmil.co\nmil.cy\nmil.do\nmil.ec\nmil.eg\nmil.fj\nmil.ge\nmil.gh\nmil.gt\nmil.hn\nmil.id\nmil.in\nmil.iq\nmil.jo\nmil.kg\nmil.km\nmil.kr\nmil.kz\nmil.lv\nmil.mg\nmil.mv\nmil.my\nmil.mz\nmil.ng\nmil.ni\nmil.no\nmil.nz\nmil.pe\nmil.ph\nmil.pl\nmil.py\nmil.qa\nmil.ru\nmil.rw\nmil.sh\nmil.st\nmil.sy\nmil.tj\nmil.tm\nmil.to\nmil.tr\nmil.tw\nmil.tz\nmil.uy\nmil.vc\nmil.ve\nmil.ye\nmil.za\nmil.zm\nmil.zw\nmilan.it\nmilano.it\nmilitary.museum\nmill.museum\nmima.tokushima.jp\nmimata.miyazaki.jp\nminakami.gunma.jp\nminamata.kumamoto.jp\nminami-alps.yamanashi.jp\nminami.fukuoka.jp\nminami.kyoto.jp\nminami.tokushima.jp\nminamiaiki.nagano.jp\nminamiashigara.kanagawa.jp\nminamiawaji.hyogo.jp\nminamiboso.chiba.jp\nminamidaito.okinawa.jp\nminamiechizen.fukui.jp\nminamifurano.hokkaido.jp\nminamiise.mie.jp\nminamiizu.shizuoka.jp\nminamimaki.nagano.jp\nminamiminowa.nagano.jp\nminamioguni.kumamoto.jp\nminamisanriku.miyagi.jp\nminamitane.kagoshima.jp\nminamiuonuma.niigata.jp\nminamiyamashiro.kyoto.jp\nminano.saitama.jp\nminato.osaka.jp\nminato.tokyo.jp\nmincom.tn\nmine.nu\nminers.museum\nmini\nmining.museum\nminiserver.com\nminisite.ms\nminnesota.museum\nmino.gifu.jp\nminobu.yamanashi.jp\nminoh.osaka.jp\nminokamo.gifu.jp\nminowa.nagano.jp\nmint\nmintere.site\nmircloud.host\nmircloud.ru\nmircloud.us\nmisaki.okayama.jp\nmisaki.osaka.jp\nmisasa.tottori.jp\nmisato.akita.jp\nmisato.miyagi.jp\nmisato.saitama.jp\nmisato.shimane.jp\nmisato.wakayama.jp\nmisawa.aomori.jp\nmisconfused.org\nmishima.fukushima.jp\nmishima.shizuoka.jp\nmissile.museum\nmissoula.museum\nmisugi.mie.jp\nmit\nmitaka.tokyo.jp\nmitake.gifu.jp\nmitane.akita.jp\nmito.ibaraki.jp\nmitou.yamaguchi.jp\nmitoyo.kagawa.jp\nmitsubishi\nmitsue.nara.jp\nmitsuke.niigata.jp\nmiura.kanagawa.jp\nmiyada.nagano.jp\nmiyagi.jp\nmiyake.nara.jp\nmiyako.fukuoka.jp\nmiyako.iwate.jp\nmiyakonojo.miyazaki.jp\nmiyama.fukuoka.jp\nmiyama.mie.jp\nmiyashiro.saitama.jp\nmiyawaka.fukuoka.jp\nmiyazaki.jp\nmiyazaki.miyazaki.jp\nmiyazu.kyoto.jp\n";

/// Normal suffixes, part 6 of 10.
pub const PSL_MAIN_5: &'static str = "miyoshi.aichi.jp\nmiyoshi.hiroshima.jp\nmiyoshi.saitama.jp\nmiyoshi.tokushima.jp\nmiyota.nagano.jp\nmizuho.tokyo.jp\nmizumaki.fukuoka.jp\nmizunami.gifu.jp\nmizusawa.iwate.jp\nmjondalen.no\nmk\nmk.eu.org\nmk.ua\nml\nmlb\nmlbfan.org\nmls\nmma\nmmafan.biz\nmn\nmn.it\nmn.us\nmo\nmo-i-rana.no\nmo-siemens.io\nmo.cn\nmo.it\nmo.us\nmoareke.no\nmobara.chiba.jp\nmobi\nmobi.gp\nmobi.ke\nmobi.na\nmobi.ng\nmobi.tt\nmobi.tz\nmobile\nmochizuki.nagano.jp\nmock.pstmn.io\nmod.gi\nmoda\nmodalen.no\nmodelling.aero\nmodena.it\nmodern.museum\nmods.jp\nmodum.no\nmoe\nmoi\nmoka.tochigi.jp\nmol.it\nmolde.no\nmolise.it\nmom\nmoma.museum\nmombetsu.hokkaido.jp\nmonash\nmond.jp\nmoney\nmoney.bj\nmoney.museum\nmongolian.jp\nmonmouth.museum\nmonster\nmonticello.museum\nmontreal.museum\nmonza-brianza.it\nmonza-e-della-brianza.it\nmonza.it\nmonzabrianza.it\nmonzaebrianza.it\nmonzaedellabrianza.it\nmoo.jp\nmoonscale.net\nmordovia.ru\nmordovia.su\nmorena.br\nmoriguchi.osaka.jp\nmorimachi.shizuoka.jp\nmorioka.iwate.jp\nmoriya.ibaraki.jp\nmoriyama.shiga.jp\nmoriyoshi.akita.jp\nmormon\nmorotsuka.miyazaki.jp\nmoroyama.saitama.jp\nmortgage\nmoscow\nmoscow.museum\nmoseushi.hokkaido.jp\nmosjoen.no\nmoskenes.no\nmoss.no\nmosvik.no\nmotegi.tochigi.jp\nmoto\nmotobu.okinawa.jp\nmotorcycle.museum\nmotorcycles\nmotosu.gifu.jp\nmotoyama.kochi.jp\nmov\nmovie\nmovimiento.bo\nmozilla-iot.org\nmp\nmp.br\nmq\nmr\nmr.no\nmragowo.pl\nms\nms.gov.br\nms.it\nms.kr\nms.leg.br\nms.us\nmsd\nmsk.ru\nmsk.su\nmt\nmt.eu.org\nmt.gov.br\nmt.it\nmt.leg.br\nmt.us\nmtn\nmtr\nmu\nmuenchen.museum\nmuenster.museum\nmugi.tokushima.jp\nmuika.niigata.jp\nmukawa.hokkaido.jp\nmuko.kyoto.jp\nmulhouse.museum\nmunakata.fukuoka.jp\nmuncie.museum\nmuni.il\nmuosat.no\nmup.gov.pl\nmurakami.niigata.jp\nmurata.miyagi.jp\nmurayama.yamagata.jp\nmurmansk.su\nmuroran.hokkaido.jp\nmuroto.kochi.jp\nmus.br\nmus.mi.us\nmusashimurayama.tokyo.jp\nmusashino.tokyo.jp\nmuseet.museum\nmuseum\nmuseum.mv\nmuseum.mw\nmuseum.no\nmuseum.om\nmuseum.tt\nmuseumcenter.museum\nmuseumvereniging.museum\nmusic\nmusic.museum\nmusica.ar\nmusica.bo\nmusician.io\nmutsu.aomori.jp\nmutsuzawa.chiba.jp\nmutual\nmutual.ar\nmv\nmw\nmw.gov.pl\nmx\nmx.na\nmy\nmy-firewall.org\nmy-gateway.de\nmy-router.de\nmy-vigor.de\nmy-wan.de\nmy.eu.org\nmy.id\nmyactivedirectory.com\nmyamaze.net\nmyasustor.com\nmycd.eu\nmycloud.by\nmydatto.com\nmydatto.net\nmyddns.rocks\nmydissent.net\nmydobiss.com\nmydrobo.com\nmyds.me\nmyeffect.net\nmyfast.host\nmyfast.space\nmyfirewall.org\nmyforum.community\nmyfritz.net\nmyftp.biz\nmyftp.org\nmyhome-server.de\nmyiphost.com\nmyjino.ru\nmykolaiv.ua\nmymailer.com.tw\nmymediapc.net\nmyoko.niigata.jp\nmypep.link\nmypets.ws\nmyphotos.cc\nmypi.co\nmypsx.net\nmyqnapcloud.com\nmysecuritycamera.com\nmysecuritycamera.net\nmysecuritycamera.org\nmyshopblocks.com\nmyshopify.com\nmyspreadshop.at\nmyspreadshop.be\nmyspreadshop.ca\nmyspreadshop.ch\nmyspreadshop.co.uk\nmyspreadshop.com\nmyspreadshop.com.au\nmyspreadshop.de\nmyspreadshop.dk\nmyspreadshop.es\nmyspreadshop.fi\nmyspreadshop.fr\nmyspreadshop.ie\nmyspreadshop.it\nmyspreadshop.net\nmyspreadshop.nl\nmyspreadshop.no\nmyspreadshop.pl\nmyspreadshop.se\nmytabit.co.il\nmytabit.com\nmytis.ru\nmytuleap.com\nmyvnc.com\nmywire.org\nmz\nn.bg\nn.se\nn4t.co\nna\nna.it\nna4u.ru\nnaamesjevuemie.no\nnab\nnabari.mie.jp\nnachikatsuura.wakayama.jp\nnagahama.shiga.jp\nnagai.yamagata.jp\nnagano.jp\nnagano.nagano.jp\nnaganohara.gunma.jp\nnagaoka.niigata.jp\nnagaokakyo.kyoto.jp\nnagara.chiba.jp\nnagareyama.chiba.jp\nnagasaki.jp\nnagasaki.nagasaki.jp\nnagasu.kumamoto.jp\nnagato.yamaguchi.jp\nnagatoro.saitama.jp\nnagawa.nagano.jp\nnagi.okayama.jp\nnagiso.nagano.jp\nnago.okinawa.jp\nnagoya\nnaha.okinawa.jp\nnahari.kochi.jp\nnaie.hokkaido.jp\nnaka.hiroshima.jp\nnaka.ibaraki.jp\nnakadomari.aomori.jp\nnakagawa.fukuoka.jp\nnakagawa.hokkaido.jp\nnakagawa.nagano.jp\nnakagawa.tokushima.jp\nnakagusuku.okinawa.jp\nnakagyo.kyoto.jp\nnakai.kanagawa.jp\nnakama.fukuoka.jp\nnakamichi.yamanashi.jp\nnakamura.kochi.jp\nnakaniikawa.toyama.jp\nnakano.nagano.jp\nnakano.tokyo.jp\nnakanojo.gunma.jp\nnakanoto.ishikawa.jp\nnakasatsunai.hokkaido.jp\nnakatane.kagoshima.jp\nnakatombetsu.hokkaido.jp\nnakatsugawa.gifu.jp\nnakayama.yamagata.jp\nnakijin.okinawa.jp\nnaklo.pl\nnalchik.ru\nnalchik.su\nnamaste.jp\nnamdalseid.no\nname\nname.az\nname.eg\nname.et\nname.fj\nname.hr\nname.jo\nname.mk\nname.mv\nname.my\nname.na\nname.ng\nname.pm\nname.pr\nname.qa\nname.tj\nname.tr\nname.tt\nname.vn\nnamegata.ibaraki.jp\nnamegawa.saitama.jp\nnamerikawa.toyama.jp\nnamie.fukushima.jp\nnamikata.ehime.jp\nnamsos.no\nnamsskogan.no\nnanae.hokkaido.jp\nnanao.ishikawa.jp\nnanbu.tottori.jp\nnanbu.yamanashi.jp\nnango.fukushima.jp\nnanjo.okinawa.jp\nnankoku.kochi.jp\nnanmoku.gunma.jp\nnannestad.no\nnanporo.hokkaido.jp\nnantan.kyoto.jp\nnanto.toyama.jp\nnanyo.yamagata.jp\nnaoshima.kagawa.jp\nnaples.it\nnapoli.it\nnara.jp\nnara.nara.jp\nnarashino.chiba.jp\nnarita.chiba.jp\nnaroy.no\nnarusawa.yamanashi.jp\nnaruto.tokushima.jp\nnarviika.no\nnarvik.no\nnasu.tochigi.jp\nnasushiobara.tochigi.jp\nnat.tn\nnatal.br\nnational.museum\nnationalfirearms.museum\nnationalheritage.museum\nnativeamerican.museum\nnatori.miyagi.jp\nnatura\nnatural.bo\nnaturalhistory.museum\nnaturalhistorymuseum.museum\nnaturalsciences.museum\nnaturbruksgymn.se\nnature.museum\nnaturhistorisches.museum\nnatuurwetenschappen.museum\nnaumburg.museum\nnaustdal.no\nnaval.museum\nnavigation.aero\nnavoi.su\nnavuotna.no\nnavy\nnayoro.hokkaido.jp\nnb.ca\nnba\nnc\nnc.tr\nnc.us\nnd.us\nne\nne.jp\nne.ke\nne.kr\nne.pw\nne.tz\nne.ug\nne.us\nneat-url.com\nnebraska.museum\nnec\nnedre-eiker.no\nneko.am\nnemuro.hokkaido.jp\nnerdpol.ovh\nnerima.tokyo.jp\nnes.akershus.no\nnes.buskerud.no\nnesna.no\nnesodden.no\nnesoddtangen.no\nnesseby.no\nnesset.no\nnet\nnet-freaks.com\nnet.ac\nnet.ae\nnet.af\nnet.ag\nnet.ai\nnet.al\nnet.am\nnet.ar\nnet.au\nnet.az\nnet.ba\nnet.bb\nnet.bh\nnet.bj\nnet.bm\nnet.bn\nnet.bo\nnet.br\nnet.bs\nnet.bt\nnet.bz\nnet.ci\nnet.cm\nnet.cn\nnet.co\nnet.cu\nnet.cw\nnet.cy\nnet.dm\nnet.do\nnet.dz\nnet.ec\nnet.eg\nnet.et\nnet.eu.org\nnet.fj\nnet.fm\nnet.ge\nnet.gg\nnet.gl\nnet.gn\nnet.gp\nnet.gr\nnet.gt\nnet.gu\nnet.gy\nnet.hk\nnet.hn\nnet.ht\nnet.id\nnet.il\nnet.im\nnet.in\nnet.iq\nnet.ir\nnet.is\nnet.je\nnet.jo\nnet.kg\nnet.ki\nnet.kn\nnet.kw\nnet.ky\nnet.kz\nnet.la\nnet.lb\nnet.lc\nnet.lk\nnet.lr\nnet.ls\nnet.lv\nnet.ly\nnet.ma\nnet.me\nnet.mk\nnet.ml\nnet.mo\nnet.ms\nnet.mt\nnet.mu\nnet.mv\nnet.mw\nnet.mx\nnet.my\nnet.mz\nnet.nf\nnet.ng\nnet.ni\nnet.nr\nnet.nz\nnet.om\nnet.pa\nnet.pe\nnet.ph\nnet.pk\nnet.pl\nnet.pn\nnet.pr\nnet.ps\nnet.pt\nnet.py\nnet.qa\nnet.ru\nnet.rw\nnet.sa\nnet.sb\nnet.sc\nnet.sd\nnet.sg\nnet.sh\nnet.sl\nnet.so\nnet.ss\nnet.st\nnet.sy\nnet.th\nnet.tj\nnet.tm\nnet.tn\nnet.to\nnet.tr\nnet.tt\nnet.tw\nnet.ua\nnet.uk\nnet.uy\nnet.uz\nnet.vc\nnet.ve\nnet.vi\nnet.vn\nnet.vu\nnet.ws\nnet.ye\nnet.za\nnet.zm\nnetbank\nnetflix\nnetlify.app\nnetwork\nneues.museum\nneustar\nnew\nnewhampshire.museum\nnewjersey.museum\nnewmexico.museum\nnewport.museum\nnews\nnews.hu\nnewspaper.museum\nnewyork.museum\nnext\nnextdirect\nnexus\nneyagawa.osaka.jp\nnf\nnf.ca\nnfl\nnflfan.org\nnfshost.com\nng\nng.eu.org\nngo\nngo.lk\nngo.ng\nngo.ph\nngo.za\nngrok.io\nnh-serv.co.uk\nnh.us\nnhk\nnhlfan.net\nnhs.uk\nni\nnic.in\nnic.tj\nnic.za\nnichinan.miyazaki.jp\nnichinan.tottori.jp\nnico\nnid.io\nniepce.museum\nnieruchomosci.pl\nniigata.jp\nniigata.niigata.jp\nniihama.ehime.jp\nniikappu.hokkaido.jp\nniimi.okayama.jp\nniiza.saitama.jp\nnikaho.akita.jp\nnike\nniki.hokkaido.jp\nnikita.jp\nnikko.tochigi.jp\nnikolaev.ua\nnikon\nninja\nninohe.iwate.jp\nninomiya.kanagawa.jp\nnirasaki.yamanashi.jp\nnis.za\nnishi.fukuoka.jp\nnishi.osaka.jp\nnishiaizu.fukushima.jp\nnishiarita.saga.jp\nnishiawakura.okayama.jp\nnishiazai.shiga.jp\nnishigo.fukushima.jp\nnishihara.kumamoto.jp\nnishihara.okinawa.jp\nnishiizu.shizuoka.jp\nnishikata.tochigi.jp\nnishikatsura.yamanashi.jp\nnishikawa.yamagata.jp\nnishimera.miyazaki.jp\nnishinomiya.hyogo.jp\nnishinoomote.kagoshima.jp\nnishinoshima.shimane.jp\nnishio.aichi.jp\nnishiokoppe.hokkaido.jp\nnishitosa.kochi.jp\nnishiwaki.hyogo.jp\nnissan\nnissay\nnissedal.no\nnisshin.aichi.jp\nniteroi.br\nnittedal.no\nniyodogawa.kochi.jp\nnj.us\nnjs.jelastic.vps-host.net\nnl\nnl-ams-1.baremetal.scw.cloud\nnl.ca\nnl.ci\nnl.eu.org\nnl.no\nnm.cn\nnm.us\nno\nno-ip.biz\nno-ip.ca\nno-ip.co.uk\nno-ip.info\nno-ip.net\nno-ip.org\nno.com\nno.eu.org\nno.it\nnobeoka.miyazaki.jp\nnoboribetsu.hokkaido.jp\nnobushi.jp\nnoda.chiba.jp\nnoda.iwate.jp\nnodes.k8s.fr-par.scw.cloud\nnodes.k8s.nl-ams.scw.cloud\nnodes.k8s.pl-waw.scw.cloud\nnog.community\nnogata.fukuoka.jp\nnogi.tochigi.jp\nnoheji.aomori.jp\nnoho.st\nnohost.me\nnoip.me\nnoip.us\nnokia\nnom.ad\nnom.ag\nnom.co\nnom.es\nnom.fr\nnom.km\nnom.mg\nnom.nc\nnom.ni\nnom.pa\nnom.pe\nnom.pl\nnom.re\nnom.ro\nnom.tm\nnom.ve\nnom.za\nnombre.bo\nnome.cv\nnome.pt\nnomi.ishikawa.jp\nnonoichi.ishikawa.jp\nnoop.app\nnoor.jp\nnord-aurdal.no\nnord-fron.no\nnord-odal.no\nnorddal.no\nnordeste-idc.saveincloud.net\nnordkapp.no\nnordre-land.no\nnordreisa.no\nnore-og-uvdal.no\nnorfolk.museum\nnorth-kazakhstan.su\nnorth.museum\nnorthwesternmutual\nnorton\nnose.osaka.jp\nnosegawa.nara.jp\nnoshiro.akita.jp\nnot.br\nnotaires.fr\nnotaires.km\nnoticeable.news\nnoticias.bo\nnoto.ishikawa.jp\nnotodden.no\nnotogawa.shiga.jp\nnotteroy.no\nnov.ru\nnov.su\nnovara.it\nnovecore.site\nnow\nnow-dns.net\nnow-dns.org\nnow-dns.top\nnow.sh\nnowaruda.pl\nnowruz\nnowtv\nnozawaonsen.nagano.jp\nnr\nnra\nnrw\nnrw.museum\nns.ca\nnsn.us\nnsupdate.info\nnsw.au\nnsw.edu.au\nnt.au\nnt.ca\nnt.edu.au\nnt.no\nnt.ro\nntdll.top\nntr.br\nntt\nnu\nnu.ca\nnu.it\nnumata.gunma.jp\nnumata.hokkaido.jp\nnumazu.shizuoka.jp\nnuoro.it\nnv.us\nnx.cn\nny-1.paas.massivegrid.net\nny-2.paas.massivegrid.net\nny.us\nnyaa.am\nnyan.to\nnyc\nnyc.mn\nnyc.museum\nnyny.museum\nnysa.pl\nnyuzen.toyama.jp\nnz\nnz.basketball\nnz.eu.org\no.bg\no.se\noamishirasato.chiba.jp\noarai.ibaraki.jp\nobama.fukui.jp\nobama.nagasaki.jp\nobanazawa.yamagata.jp\nobi\nobihiro.hokkaido.jp\nobira.hokkaido.jp\nobninsk.su\nobserver\nobu.aichi.jp\nobuse.nagano.jp\noceanographic.museum\noceanographique.museum\nocelot.mythic-beasts.com\nochi.kochi.jp\nod.ua\nodate.akita.jp\nodawara.kanagawa.jp\nodda.no\nodesa.ua\nodessa.ua\nodo.br\noe.yamagata.jp\nof.by\nof.je\nof.no\noff.ai\noffice\noffice-on-the.net\nofficial.academy\nofficial.ec\nofunato.iwate.jp\nog.ao\nog.it\noga.akita.jp\nogaki.gifu.jp\nogano.saitama.jp\nogasawara.tokyo.jp\nogata.akita.jp\nogawa.ibaraki.jp\nogawa.nagano.jp\nogawa.saitama.jp\nogawara.miyagi.jp\nogi.saga.jp\nogimi.okinawa.jp\nogliastra.it\nogori.fukuoka.jp\nogose.saitama.jp\noguchi.aichi.jp\noguni.kumamoto.jp\noguni.yamagata.jp\noh.us\noharu.aichi.jp\nohda.shimane.jp\nohi.fukui.jp\nohira.miyagi.jp\nohira.tochigi.jp\nohkura.yamagata.jp\nohtawara.tochigi.jp\noi.kanagawa.jp\noirase.aomori.jp\noirm.gov.pl\noishida.yamagata.jp\noiso.kanagawa.jp\noita.jp\noita.oita.jp\noizumi.gunma.jp\noji.nara.jp\nojiya.niigata.jp\nok.us\nokagaki.fukuoka.jp\nokawa.fukuoka.jp\nokawa.kochi.jp\nokaya.nagano.jp\nokayama.jp\nokayama.okayama.jp\nokazaki.aichi.jp\nokegawa.saitama.jp\noketo.hokkaido.jp\noki.fukuoka.jp\nokinawa\nokinawa.jp\nokinawa.okinawa.jp\nokinoshima.shimane.jp\nokoppe.hokkaido.jp\noksnes.no\nokuizumo.shimane.jp\nokuma.fukushima.jp\nokutama.tokyo.jp\nol.no\nolawa.pl\nolayan\nolayangroup\nolbia-tempio.it\nolbiatempio.it\noldnavy\nolecko.pl\nolkusz.pl\nollo\nolsztyn.pl\nom\nomachi.nagano.jp\nomachi.saga.jp\nomaezaki.shizuoka.jp\nomaha.museum\nomasvuotna.no\nome.tokyo.jp\nomega\nomg.lol\nomi.nagano.jp\nomi.niigata.jp\nomigawa.chiba.jp\nomihachiman.shiga.jp\nomitama.ibaraki.jp\nomiya.saitama.jp\nomniwe.site\nomotego.fukushima.jp\nomura.nagasaki.jp\nomuta.fukuoka.jp\non-aptible.com\non-the-web.tv\non-web.fr\non.ca\nonagawa.miyagi.jp\nonavstack.net\noncilla.mythic-beasts.com\nondigitalocean.app\none\nonfabrica.com\nonflashdrive.app\nong\nong.br\nonga.fukuoka.jp\nonion\nonjuku.chiba.jp\nonl\nonline\nonline.museum\nonline.th\nonna.okinawa.jp\nono.fukui.jp\nono.fukushima.jp\nono.hyogo.jp\nonojo.fukuoka.jp\nonomichi.hiroshima.jp\nonporter.run\nonred.one\nonrender.com\nontario.museum\nonthewifi.com\nonza.mythic-beasts.com\nooguy.com\nookuwa.nagano.jp\nooo\noops.jp\nooshika.nagano.jp\nopen\nopenair.museum\nopencraft.hosting\nopensocial.site\noperaunite.com\nopoczno.pl\nopole.pl\noppdal.no\noppegard.no\nor.at\nor.bi\nor.ci\nor.cr\nor.id\nor.it\nor.jp\nor.ke\nor.kr\nor.mu\nor.na\nor.pw\nor.th\nor.tz\nor.ug\nor.us\nora.gunma.jp\noracle\norange\norangecloud.tn\noregon.museum\noregontrail.museum\norg\norg.ac\norg.ae\norg.af\norg.ag\norg.ai\norg.al\norg.am\norg.ar\norg.au\norg.az\norg.ba\norg.bb\norg.bh\norg.bi\norg.bj\norg.bm\norg.bn\norg.bo\norg.br\norg.bs\norg.bt\norg.bw\norg.bz\norg.ci\norg.cn\norg.co\norg.cu\norg.cv\norg.cw\norg.cy\norg.dm\norg.do\norg.dz\norg.ec\norg.ee\norg.eg\norg.es\norg.et\norg.fj\norg.fm\norg.ge\norg.gg\norg.gh\norg.gi\norg.gl\norg.gn\norg.gp\norg.gr\norg.gt\norg.gu\norg.gy\norg.hk\norg.hn\norg.ht\norg.hu\norg.il\n";

/// Normal suffixes, part 7 of 10.
pub const PSL_MAIN_6: &'static str = "org.im\norg.in\norg.iq\norg.ir\norg.is\norg.je\norg.jo\norg.kg\norg.ki\norg.km\norg.kn\norg.kp\norg.kw\norg.ky\norg.kz\norg.la\norg.lb\norg.lc\norg.lk\norg.lr\norg.ls\norg.lv\norg.ly\norg.ma\norg.me\norg.mg\norg.mk\norg.ml\norg.mn\norg.mo\norg.ms\norg.mt\norg.mu\norg.mv\norg.mw\norg.mx\norg.my\norg.mz\norg.na\norg.ng\norg.ni\norg.nr\norg.nz\norg.om\norg.pa\norg.pe\norg.pf\norg.ph\norg.pk\norg.pl\norg.pn\norg.pr\norg.ps\norg.pt\norg.py\norg.qa\norg.ro\norg.rs\norg.ru\norg.rw\norg.sa\norg.sb\norg.sc\norg.sd\norg.se\norg.sg\norg.sh\norg.sl\norg.sn\norg.so\norg.ss\norg.st\norg.sv\norg.sy\norg.sz\norg.tj\norg.tm\norg.tn\norg.to\norg.tr\norg.tt\norg.tw\norg.ua\norg.ug\norg.uk\norg.uy\norg.uz\norg.vc\norg.ve\norg.vi\norg.vn\norg.vu\norg.ws\norg.ye\norg.yt\norg.za\norg.zm\norg.zw\norganic\norigins\noristano.it\norkanger.no\norkdal.no\norland.no\norsites.com\norskog.no\norsta.no\norx.biz\nos.hedmark.no\nos.hordaland.no\nosaka\nosaka.jp\nosakasayama.osaka.jp\nosaki.miyagi.jp\nosakikamijima.hiroshima.jp\nosasco.br\nosen.no\noseto.nagasaki.jp\noshima.tokyo.jp\noshima.yamaguchi.jp\noshino.yamanashi.jp\noshu.iwate.jp\noslo.no\nosoyro.no\nosteroy.no\nostre-toten.no\nostroda.pl\nostroleka.pl\nostrowiec.pl\nostrowwlkp.pl\not.it\nota.gunma.jp\nota.tokyo.jp\notago.museum\notake.hiroshima.jp\notaki.chiba.jp\notaki.nagano.jp\notaki.saitama.jp\notama.fukushima.jp\notari.nagano.jp\notaru.hokkaido.jp\note.bj\nother.nf\noto.fukuoka.jp\notobe.hokkaido.jp\notofuke.hokkaido.jp\notoineppu.hokkaido.jp\notoyo.kochi.jp\notsu.shiga.jp\notsuchi.iwate.jp\notsuka\notsuki.kochi.jp\notsuki.yamanashi.jp\nott\nouchi.saga.jp\nouda.nara.jp\noum.gov.pl\noumu.hokkaido.jp\noutsystemscloud.com\noverhalla.no\novh\novre-eiker.no\nowani.aomori.jp\nowariasahi.aichi.jp\nown.pm\nownip.net\nownprovider.com\nox.rs\noxa.cloud\noxford.museum\noy.lc\noya.to\noyabe.toyama.jp\noyama.tochigi.jp\noyamazaki.kyoto.jp\noyer.no\noygarden.no\noyodo.nara.jp\noystre-slidre.no\noz.au\nozora.hokkaido.jp\nozu.ehime.jp\nozu.kumamoto.jp\np.bg\np.se\npa\npa.gov.br\npa.gov.pl\npa.it\npa.leg.br\npa.us\npaas.beebyte.io\npaas.datacenter.fi\npaas.hosted-by-previder.com\npaas.massivegrid.com\npacific.museum\npaderborn.museum\npadova.it\npadua.it\npage\npagefrontapp.com\npages.dev\npages.it.hs-heilbronn.de\npages.torproject.net\npages.wiardweb.com\npagespeedmobilizer.com\npagexl.com\npalace.museum\npaleo.museum\npalermo.it\npalmas.br\npalmsprings.museum\npanama.museum\npanasonic\npanel.gg\npantheonsite.io\nparachuting.aero\nparagliding.aero\nparallel.jp\nparasite.jp\nparis\nparis.eu.org\nparis.museum\nparliament.nz\nparma.it\nparoch.k12.ma.us\npars\nparti.se\npartners\nparts\nparty\npasadena.museum\npassagens\npassenger-association.aero\npatria.bo\npavia.it\npay\npb.ao\npb.gov.br\npb.leg.br\npc.it\npc.pl\npccw\npcloud.host\npd.it\npdns.page\npe\npe.ca\npe.gov.br\npe.it\npe.kr\npe.leg.br\npecori.jp\npeewee.jp\npenne.jp\npenza.su\npepper.jp\nper.la\nper.nf\nper.sg\nperma.jp\nperso.ht\nperso.sn\nperso.tn\nperspecta.cloud\nperugia.it\npesaro-urbino.it\npesarourbino.it\npescara.it\npet\npf\npfizer\npg.in\npg.it\npgafan.net\npgfog.com\nph\npharmacien.fr\npharmaciens.km\npharmacy\npharmacy.museum\nphd\nphiladelphia.museum\nphiladelphiaarea.museum\nphilately.museum\nphilips\nphoenix.museum\nphone\nphoto\nphotography\nphotography.museum\nphotos\nphx.enscaled.us\nphysio\npi.gov.br\npi.it\npi.leg.br\npiacenza.it\npics\npictet\npictures\npid\npiedmont.it\npiemonte.it\npigboat.jp\npila.pl\npilot.aero\npilots.museum\npimienta.org\npin\npinb.gov.pl\nping\npink\npinoko.jp\npioneer\npippu.hokkaido.jp\npisa.it\npistoia.it\npisz.pl\npittsburgh.museum\npiw.gov.pl\npixolino.com\npizza\npk\npl\npl.eu.org\npl.ua\nplace\nplanetarium.museum\nplantation.museum\nplants.museum\nplatform0.app\nplatter-app.com\nplatter-app.dev\nplatterp.us\nplay\nplaystation\nplaystation-cloud.com\nplaza.museum\nplc.co.im\nplc.ly\nplc.uk\nplesk.page\npleskns.com\nplo.ps\nplumbing\nplurinacional.bo\nplus\npm\npmn.it\npn\npn.it\npnc\npo.gov.pl\npo.it\npoa.br\npodhale.pl\npodlasie.pl\npodzone.net\npodzone.org\npohl\npoint2this.com\npointto.us\npoivron.org\npoker\npokrovsk.su\npol.dz\npol.ht\npol.tr\npolice.uk\npolitica.bo\npolitie\npolkowice.pl\npoltava.ua\npomorskie.pl\npomorze.pl\nponiatowa.pl\nponpes.id\npordenone.it\nporn\nporsanger.no\nporsangu.no\nporsgrunn.no\nport.fr\nportal.museum\nportland.museum\nportlligat.museum\npost\npost.in\npostman-echo.com\nposts-and-telecommunications.museum\npotager.org\npotenza.it\npowiat.pl\npoznan.pl\npp.az\npp.ru\npp.se\npp.ua\nppg.br\npr\npr.gov.br\npr.it\npr.leg.br\npr.us\npramerica\nprato.it\npraxi\nprd.fr\nprd.km\nprd.mg\nprequalifyme.today\npreservation.museum\npresidio.museum\npress\npress.aero\npress.cy\npress.ma\npress.museum\npress.se\npresse.ci\npresse.km\npresse.ml\npri.ee\nprime\nprimetel.cloud\nprincipe.st\npriv.at\npriv.hu\npriv.instances.scw.cloud\npriv.me\npriv.no\npriv.pl\nprivatelink.snowflake.app\nprivatizehealthinsurance.net\npro\npro.az\npro.br\npro.cy\npro.ec\npro.fj\npro.ht\npro.in\npro.mv\npro.na\npro.om\npro.pr\npro.tt\npro.typeform.com\npro.vn\nprochowice.pl\nprod\nproduction.aero\nproductions\nprof\nprof.pr\nprofesional.bo\nprogressive\nproject.museum\npromo\nproperties\nproperty\nprotection\nprotonet.io\npru\nprudential\npruszkow.pl\nprvcy.page\nprzeworsk.pl\nps\npsc.br\npsi.br\npsp.gov.pl\npsse.gov.pl\npstmn.io\npt\npt.eu.org\npt.it\npu.it\npub\npub.instances.scw.cloud\npub.sa\npubl.pt\npublic-inquiry.uk\npublic.museum\npublishproxy.com\npubol.museum\npubtls.org\npueblo.bo\npug.it\npuglia.it\npulawy.pl\npunyu.jp\npup.gov.pl\npupu.jp\npussycat.jp\npv.it\npvh.br\npvt.ge\npvt.k12.ma.us\npw\npwc\npy\npya.jp\npyatigorsk.ru\npymnt.uk\npythonanywhere.com\npz.it\nq-a.eu.org\nq.bg\nqa\nqa2.com\nqbuser.com\nqc.ca\nqc.com\nqcx.io\nqh.cn\nqld.au\nqld.edu.au\nqld.gov.au\nqoto.io\nqpon\nqsl.br\nqualifioapp.com\nquebec\nquebec.museum\nquest\nquicksytes.com\nr.bg\nr.cdn77.net\nr.se\nr2.dev\nra.it\nracing\nrackmaze.com\nrackmaze.net\nrade.no\nradio\nradio.am\nradio.br\nradio.fm\nradom.pl\nradoy.no\nraffleentry.org.uk\nrag-cloud-ch.hosteur.com\nrag-cloud.hosteur.com\nragusa.it\nrahkkeravju.no\nraholt.no\nrailroad.museum\nrailway.museum\nraindrop.jp\nraisa.no\nrakkestad.no\nralingen.no\nrana.no\nrandaberg.no\nrankoshi.hokkaido.jp\nranzan.saitama.jp\nrar.ve\nras.ru\nrauma.no\nravendb.cloud\nravendb.community\nravendb.me\nravendb.run\nravenna.it\nravpage.co.il\nrawa-maz.pl\nrc.it\nrdv.to\nre\nre.it\nre.kr\nread\nread-books.org\nreadmyblog.org\nreadthedocs.io\nreadymade.jp\nrealestate\nrealestate.pl\nrealm.cz\nrealtor\nrealty\nrebun.hokkaido.jp\nrec.br\nrec.co\nrec.nf\nrec.ro\nrec.ve\nrecht.pro\nrecife.br\nrecipes\nrecreation.aero\nred\nred.sv\nredirectme.net\nredstone\nredumbrella\nreg.dk\nreggio-calabria.it\nreggio-emilia.it\nreggiocalabria.it\nreggioemilia.it\nrehab\nreise\nreisen\nreit\nreklam.hu\nrel.ht\nrel.pl\nreliance\nremotewd.com\nren\nrendalen.no\nrennebu.no\nrennesoy.no\nrent\nrentals\nrep.br\nrep.kp\nrepair\nrepbody.aero\nrepl.co\nrepl.run\nreport\nrepublican\nres.aero\nres.in\nresearch.aero\nresearch.museum\nreservd.com\nreservd.dev.thingdust.io\nreservd.disrec.thingdust.io\nreservd.testing.thingdust.io\nreserve-online.com\nreserve-online.net\nresindevice.io\nresistance.museum\nrest\nrestaurant\nrestaurant.bj\nresto.bj\nreview\nreviews\nrevista.bo\nrexroth\nrg.it\nrhcloud.com\nri.it\nri.us\nribeirao.br\nric.jelastic.vps-host.net\nrich\nrichardli\nricoh\nrieti.it\nrifu.miyagi.jp\nriik.ee\nrikubetsu.hokkaido.jp\nrikuzentakata.iwate.jp\nril\nrimini.it\nrindal.no\nringebu.no\nringerike.no\nringsaker.no\nrio\nrio.br\nriobranco.br\nriodejaneiro.museum\nriopreto.br\nrip\nrishiri.hokkaido.jp\nrishirifuji.hokkaido.jp\nrisor.no\nrissa.no\nritto.shiga.jp\nrivne.ua\nrj.gov.br\nrj.leg.br\nrl.no\nrm.it\nrn.gov.br\nrn.it\nrn.leg.br\nro\nro.eu.org\nro.gov.br\nro.im\nro.it\nro.leg.br\nroan.no\nrocher\nrochester.museum\nrockart.museum\nrocks\nrocky.page\nrodeo\nrodoy.no\nrogers\nrokunohe.aomori.jp\nrollag.no\nroma.it\nroma.museum\nrome.it\nromsa.no\nromskog.no\nroom\nroros.no\nrost.no\nrotorcraft.aero\nrouter.management\nrovigo.it\nrovno.ua\nroyal-commission.uk\nroyken.no\nroyrvik.no\nrr.gov.br\nrr.leg.br\nrs\nrs.ba\nrs.gov.br\nrs.leg.br\nrsc.cdn77.org\nrsvp\nru\nru.com\nru.eu.org\nru.net\nrugby\nruhr\nrun\nrun.app\nruovat.no\nrussia.museum\nrv.ua\nrw\nrwe\nrybnik.pl\nryd.wafaicloud.com\nrygge.no\nryokami.saitama.jp\nryugasaki.ibaraki.jp\nryukyu\nryuoh.shiga.jp\nrzeszow.pl\nrzgw.gov.pl\ns.bg\ns.se\ns3-ap-northeast-1.amazonaws.com\ns3-ap-northeast-2.amazonaws.com\ns3-ap-south-1.amazonaws.com\ns3-ap-southeast-1.amazonaws.com\ns3-ap-southeast-2.amazonaws.com\ns3-ca-central-1.amazonaws.com\ns3-eu-central-1.amazonaws.com\ns3-eu-west-1.amazonaws.com\ns3-eu-west-2.amazonaws.com\ns3-eu-west-3.amazonaws.com\ns3-external-1.amazonaws.com\ns3-fips-us-gov-west-1.amazonaws.com\ns3-sa-east-1.amazonaws.com\ns3-us-east-2.amazonaws.com\ns3-us-gov-west-1.amazonaws.com\ns3-us-west-1.amazonaws.com\ns3-us-west-2.amazonaws.com\ns3-website-ap-northeast-1.amazonaws.com\ns3-website-ap-southeast-1.amazonaws.com\ns3-website-ap-southeast-2.amazonaws.com\ns3-website-eu-west-1.amazonaws.com\ns3-website-sa-east-1.amazonaws.com\ns3-website-us-east-1.amazonaws.com\ns3-website-us-west-1.amazonaws.com\ns3-website-us-west-2.amazonaws.com\ns3-website.ap-northeast-2.amazonaws.com\ns3-website.ap-south-1.amazonaws.com\ns3-website.ca-central-1.amazonaws.com\ns3-website.eu-central-1.amazonaws.com\ns3-website.eu-west-2.amazonaws.com\ns3-website.eu-west-3.amazonaws.com\ns3-website.fr-par.scw.cloud\ns3-website.nl-ams.scw.cloud\ns3-website.pl-waw.scw.cloud\ns3-website.us-east-2.amazonaws.com\ns3.amazonaws.com\ns3.ap-northeast-2.amazonaws.com\ns3.ap-south-1.amazonaws.com\ns3.ca-central-1.amazonaws.com\ns3.cn-north-1.amazonaws.com.cn\ns3.dualstack.ap-northeast-1.amazonaws.com\ns3.dualstack.ap-northeast-2.amazonaws.com\ns3.dualstack.ap-south-1.amazonaws.com\ns3.dualstack.ap-southeast-1.amazonaws.com\ns3.dualstack.ap-southeast-2.amazonaws.com\ns3.dualstack.ca-central-1.amazonaws.com\ns3.dualstack.eu-central-1.amazonaws.com\ns3.dualstack.eu-west-1.amazonaws.com\ns3.dualstack.eu-west-2.amazonaws.com\ns3.dualstack.eu-west-3.amazonaws.com\ns3.dualstack.sa-east-1.amazonaws.com\ns3.dualstack.us-east-1.amazonaws.com\ns3.dualstack.us-east-2.amazonaws.com\ns3.eu-central-1.amazonaws.com\ns3.eu-west-2.amazonaws.com\ns3.eu-west-3.amazonaws.com\ns3.fr-par.scw.cloud\ns3.nl-ams.scw.cloud\ns3.pl-waw.scw.cloud\ns3.teckids.org\ns3.us-east-2.amazonaws.com\nsa\nsa-east-1.elasticbeanstalk.com\nsa.au\nsa.com\nsa.cr\nsa.edu.au\nsa.gov.au\nsa.gov.pl\nsa.it\nsaarland\nsabae.fukui.jp\nsadist.jp\nsado.niigata.jp\nsafe\nsafety\nsafety.aero\nsaga.jp\nsaga.saga.jp\nsagae.yamagata.jp\nsagamihara.kanagawa.jp\nsaigawa.fukuoka.jp\nsaijo.ehime.jp\nsaikai.nagasaki.jp\nsaiki.oita.jp\nsaintlouis.museum\nsaitama.jp\nsaitama.saitama.jp\nsaito.miyazaki.jp\nsaka.hiroshima.jp\nsakado.saitama.jp\nsakae.chiba.jp\nsakae.nagano.jp\nsakahogi.gifu.jp\nsakai.fukui.jp\nsakai.ibaraki.jp\nsakai.osaka.jp\nsakaiminato.tottori.jp\nsakaki.nagano.jp\nsakata.yamagata.jp\nsakawa.kochi.jp\nsakegawa.yamagata.jp\nsaku.nagano.jp\nsakuho.nagano.jp\nsakura\nsakura.chiba.jp\nsakura.tochigi.jp\nsakuragawa.ibaraki.jp\nsakurai.nara.jp\nsakyo.kyoto.jp\nsalangen.no\nsalat.no\nsale\nsalem.museum\nsalerno.it\nsalon\nsaltdal.no\nsalud.bo\nsalvador.br\nsalvadordali.museum\nsalzburg.museum\nsamegawa.fukushima.jp\nsamnanger.no\nsampa.br\nsamsclub\nsamsung\nsamukawa.kanagawa.jp\nsanagochi.tokushima.jp\nsanda.hyogo.jp\nsandcats.io\nsande.more-og-romsdal.no\nsande.vestfold.no\nsande.xn--mre-og-romsdal-qqb.no\nsandefjord.no\nsandiego.museum\nsandnes.no\nsandnessjoen.no\nsandoy.no\nsandvik\nsandvikcoromant\nsanfrancisco.museum\nsango.nara.jp\nsanjo.niigata.jp\nsannan.hyogo.jp\nsannohe.aomori.jp\nsano.tochigi.jp\nsanofi\nsanok.pl\nsantabarbara.museum\nsantacruz.museum\nsantafe.museum\nsantamaria.br\nsantoandre.br\nsanuki.kagawa.jp\nsaobernardo.br\nsaogonca.br\nsaotome.st\nsap\nsar.it\nsardegna.it\nsardinia.it\nsarl\nsaroma.hokkaido.jp\nsarpsborg.no\nsarufutsu.hokkaido.jp\nsas\nsasaguri.fukuoka.jp\nsasayama.hyogo.jp\nsasebo.nagasaki.jp\nsaskatchewan.museum\nsassari.it\nsatosho.okayama.jp\nsatsumasendai.kagoshima.jp\nsatte.saitama.jp\nsatx.museum\nsauda.no\nsauherad.no\nsavannahga.museum\nsave\nsaves-the-whales.com\nsavona.it\nsaxo\nsayama.osaka.jp\nsayama.saitama.jp\nsayo.hyogo.jp\nsb\nsb.ua\nsbi\nsbs\nsc\nsc.cn\nsc.gov.br\nsc.ke\nsc.kr\nsc.leg.br\nsc.ls\nsc.tz\nsc.ug\nsc.us\nsca\nscalebook.scw.cloud\nscb\nsch.ae\nsch.id\nsch.ir\nsch.jo\nsch.lk\nsch.ly\nsch.ng\nsch.qa\nsch.sa\nsch.so\nsch.ss\nsch.tf\nsch.wf\nsch.zm\nschaeffler\nschlesisches.museum\nschmidt\nschoenbrunn.museum\nschokokeks.net\nschokoladen.museum\nscholarships\nschool\nschool.museum\nschool.na\nschool.nz\nschool.za\nschoolbus.jp\nschools.nsw.edu.au\nschule\nschulplattform.de\nschulserver.de\nschwarz\nschweiz.museum\nsci.eg\nscience\nscience-fiction.museum\nscience.museum\n";

/// Normal suffixes, part 8 of 10.
pub const PSL_MAIN_7: &'static str = "scienceandhistory.museum\nscienceandindustry.museum\nsciencecenter.museum\nsciencecenters.museum\nsciencehistory.museum\nsciences.museum\nsciencesnaturelles.museum\nscientist.aero\nscot\nscotland.museum\nscrapper-site.net\nscrapping.cc\nscrysec.com\nsd\nsd.cn\nsd.us\nsdn.gov.pl\nsdscloud.pl\nse\nse.eu.org\nse.gov.br\nse.leg.br\nse.net\nseaport.museum\nsearch\nseat\nsebastopol.ua\nsec.ps\nsecaas.hk\nsecret.jp\nsecure\nsecurity\nsecuritytactics.com\nseek\nseg.br\nseidat.net\nseihi.nagasaki.jp\nseika.kyoto.jp\nseiro.niigata.jp\nseirou.niigata.jp\nseiyo.ehime.jp\nsejny.pl\nsekd1.beebyteapp.io\nseki.gifu.jp\nsekigahara.gifu.jp\nsekikawa.niigata.jp\nsel.no\nselbu.no\nselect\nselfip.biz\nselfip.com\nselfip.info\nselfip.net\nselfip.org\nselje.no\nseljord.no\nsellfy.store\nsells-for-less.com\nsells-for-u.com\nsells-it.net\nsellsyourhome.org\nsemboku.akita.jp\nsemine.miyagi.jp\nsenasa.ar\nsener\nsennan.osaka.jp\nsenseering.net\nseoul.kr\nsera.hiroshima.jp\nseranishi.hiroshima.jp\nservebbs.com\nservebbs.net\nservebbs.org\nservebeer.com\nserveblog.net\nservecounterstrike.com\nserveexchange.com\nserveftp.com\nserveftp.net\nserveftp.org\nservegame.com\nservegame.org\nservehalflife.com\nservehttp.com\nservehumour.com\nserveirc.com\nserveminecraft.net\nservemp3.com\nservep2p.com\nservepics.com\nservequake.com\nservers.run\nservesarcasm.com\nservice.gov.scot\nservice.gov.uk\nservice.one\nservices\nservices.aero\nsetagaya.tokyo.jp\nseto.aichi.jp\nsetouchi.okayama.jp\nsettlement.museum\nsettlers.museum\nsettsu.osaka.jp\nsevastopol.ua\nseven\nsew\nsex\nsex.hu\nsex.pl\nsexy\nsf.no\nsfr\nsg\nsg-1.paas.massivegrid.net\nsh\nsh.cn\nshacknet.nu\nshakotan.hokkaido.jp\nshangrila\nshari.hokkaido.jp\nsharp\nshaw\nshell\nshell.museum\nsherbrooke.museum\nshia\nshibata.miyagi.jp\nshibata.niigata.jp\nshibecha.hokkaido.jp\nshibetsu.hokkaido.jp\nshibukawa.gunma.jp\nshibuya.tokyo.jp\nshichikashuku.miyagi.jp\nshichinohe.aomori.jp\nshiftcrypto.dev\nshiftcrypto.io\nshiftedit.io\nshiga.jp\nshiiba.miyazaki.jp\nshijonawate.osaka.jp\nshika.ishikawa.jp\nshikabe.hokkaido.jp\nshikama.miyagi.jp\nshikaoi.hokkaido.jp\nshikatsu.aichi.jp\nshiki.saitama.jp\nshikokuchuo.ehime.jp\nshiksha\nshima.mie.jp\nshimabara.nagasaki.jp\nshimada.shizuoka.jp\nshimamaki.hokkaido.jp\nshimamoto.osaka.jp\nshimane.jp\nshimane.shimane.jp\nshimizu.hokkaido.jp\nshimizu.shizuoka.jp\nshimoda.shizuoka.jp\nshimodate.ibaraki.jp\nshimofusa.chiba.jp\nshimogo.fukushima.jp\nshimoichi.nara.jp\nshimoji.okinawa.jp\nshimokawa.hokkaido.jp\nshimokitayama.nara.jp\nshimonita.gunma.jp\nshimonoseki.yamaguchi.jp\nshimosuwa.nagano.jp\nshimotsuke.tochigi.jp\nshimotsuma.ibaraki.jp\nshinagawa.tokyo.jp\nshinanomachi.nagano.jp\nshingo.aomori.jp\nshingu.fukuoka.jp\nshingu.hyogo.jp\nshingu.wakayama.jp\nshinichi.hiroshima.jp\nshinjo.nara.jp\nshinjo.okayama.jp\nshinjo.yamagata.jp\nshinjuku.tokyo.jp\nshinkamigoto.nagasaki.jp\nshinonsen.hyogo.jp\nshinshinotsu.hokkaido.jp\nshinshiro.aichi.jp\nshinto.gunma.jp\nshintoku.hokkaido.jp\nshintomi.miyazaki.jp\nshinyoshitomi.fukuoka.jp\nshiogama.miyagi.jp\nshiojiri.nagano.jp\nshioya.tochigi.jp\nshirahama.wakayama.jp\nshirakawa.fukushima.jp\nshirakawa.gifu.jp\nshirako.chiba.jp\nshiranuka.hokkaido.jp\nshiraoi.hokkaido.jp\nshiraoka.saitama.jp\nshirataka.yamagata.jp\nshiriuchi.hokkaido.jp\nshiroi.chiba.jp\nshiroishi.miyagi.jp\nshiroishi.saga.jp\nshirosato.ibaraki.jp\nshishikui.tokushima.jp\nshiso.hyogo.jp\nshisui.chiba.jp\nshitara.aichi.jp\nshiwa.iwate.jp\nshizukuishi.iwate.jp\nshizuoka.jp\nshizuoka.shizuoka.jp\nshobara.hiroshima.jp\nshoes\nshonai.fukuoka.jp\nshonai.yamagata.jp\nshoo.okayama.jp\nshop\nshop.brendly.rs\nshop.ht\nshop.hu\nshop.pl\nshop.ro\nshop.th\nshoparena.pl\nshopitsite.com\nshopping\nshopselect.net\nshopware.store\nshouji\nshow\nshow.aero\nshowa.fukushima.jp\nshowa.gunma.jp\nshowa.yamanashi.jp\nshowtime\nshunan.yamaguchi.jp\nshw.io\nsi\nsi.eu.org\nsi.it\nsibenik.museum\nsic.it\nsicilia.it\nsicily.it\nsiellak.no\nsiena.it\nsigdal.no\nsiiites.com\nsiljan.no\nsilk\nsilk.museum\nsimple-url.com\nsimplesite.com\nsimplesite.com.br\nsimplesite.gr\nsimplesite.pl\nsina\nsinaapp.com\nsingles\nsiracusa.it\nsirdal.no\nsite\nsite.tb-hosting.com\nsite.transip.me\nsiteleaf.net\nsites.static.land\nsj\nsjc.br\nsk\nsk.ca\nsk.eu.org\nskanit.no\nskanland.no\nskaun.no\nskedsmo.no\nskedsmokorset.no\nski\nski.museum\nski.no\nskien.no\nskierva.no\nskin\nskiptvet.no\nskjak.no\nskjervoy.no\nsklep.pl\nsko.gov.pl\nskoczow.pl\nskodje.no\nskole.museum\nsky\nskydiving.aero\nskygearapp.com\nskype\nsl\nslask.pl\nslattum.no\nsld.do\nsld.pa\nslg.br\nsling\nslupsk.pl\nslz.br\nsm\nsm.ua\nsmall-web.org\nsmart\nsmartlabeling.scw.cloud\nsmile\nsmola.no\nsmushcdn.com\nsn\nsn.cn\nsnaase.no\nsnasa.no\nsncf\nsnillfjord.no\nsnoasa.no\nsnowflake.app\nso\nso.gov.pl\nso.it\nsobetsu.hokkaido.jp\nsoc.dz\nsoc.lk\nsoc.srcf.net\nsoccer\nsochi.su\nsocial\nsociety.museum\nsodegaura.chiba.jp\nsoeda.fukuoka.jp\nsoftbank\nsoftware\nsoftware.aero\nsogndal.no\nsogne.no\nsohu\nsoja.okayama.jp\nsoka.saitama.jp\nsokndal.no\nsola.no\nsolar\nsologne.museum\nsolund.no\nsolutions\nsoma.fukushima.jp\nsomna.no\nsondre-land.no\nsondrio.it\nsong\nsongdalen.no\nsoni.nara.jp\nsony\nsoo.kagoshima.jp\nsopot.pl\nsor-aurdal.no\nsor-fron.no\nsor-odal.no\nsor-varanger.no\nsorfold.no\nsorocaba.br\nsorreisa.no\nsortland.no\nsorum.no\nsos.pl\nsosa.chiba.jp\nsosnowiec.pl\nsoundandvision.museum\nsoundcast.me\nsouthcarolina.museum\nsouthwest.museum\nsowa.ibaraki.jp\nsoy\nsp.gov.br\nsp.it\nsp.leg.br\nspa\nspace\nspace-to-rent.com\nspace.museum\nspacekit.io\nspb.ru\nspb.su\nspdns.de\nspdns.eu\nspdns.org\nsphinx.mythic-beasts.com\nspjelkavik.no\nsport\nsport.hu\nspot\nspy.museum\nspydeberg.no\nsquare.museum\nsquare7.ch\nsquare7.de\nsquare7.net\nsr\nsr.gov.pl\nsr.it\nsrht.site\nsrl\nsrv.br\nss\nss.it\nssl.origin.cdn77-secure.org\nst\nst.no\nstaba.jp\nstackhero-network.com\nstada\nstadt.museum\nstage.nodeart.io\nstaging.onred.one\nstalbans.museum\nstalowa-wola.pl\nstange.no\nstaples\nstar\nstarachowice.pl\nstargard.pl\nstarnberg.museum\nstarostwo.gov.pl\nstat.no\nstate.museum\nstatebank\nstatefarm\nstateofdelaware.museum\nstathelle.no\nstatic-access.net\nstatic.land\nstatic.observableusercontent.com\nstation.museum\nstavanger.no\nstavern.no\nstc\nstcgroup\nsteam.museum\nsteiermark.museum\nsteigen.no\nsteinkjer.no\nsth.ac.at\nstjohn.museum\nstjordal.no\nstjordalshalsen.no\nstockholm\nstockholm.museum\nstokke.no\nstor-elvdal.no\nstorage\nstorage.yandexcloud.net\nstord.no\nstordal.no\nstore\nstore.bb\nstore.dk\nstore.nf\nstore.ro\nstore.st\nstore.ve\nstorebase.store\nstorfjord.no\nstorj.farm\nstpetersburg.museum\nstrand.no\nstranda.no\nstream\nstreamlit.app\nstreamlitapp.com\nstripper.jp\nstryn.no\nstudent.aero\nstudio\nstudy\nstuff-4-sale.org\nstuff-4-sale.us\nstufftoread.com\nstuttgart.museum\nstyle\nsu\nsu.paba.se\nsub.jp\nsucks\nsue.fukuoka.jp\nsuedtirol.it\nsuginami.tokyo.jp\nsugito.saitama.jp\nsuifu.ibaraki.jp\nsuisse.museum\nsuita.osaka.jp\nsukagawa.fukushima.jp\nsukumo.kochi.jp\nsula.no\nsuldal.no\nsuli.hu\nsumida.tokyo.jp\nsumita.iwate.jp\nsumoto.hyogo.jp\nsumoto.kumamoto.jp\nsumy.ua\nsunagawa.hokkaido.jp\nsund.no\nsunndal.no\nsunnyday.jp\nsupabase.co\nsupabase.in\nsupabase.net\nsupersale.jp\nsupplies\nsupply\nsupport\nsurf\nsurgeonshall.museum\nsurgery\nsurnadal.no\nsurrey.museum\nsusaki.kochi.jp\nsusono.shizuoka.jp\nsuwa.nagano.jp\nsuwalki.pl\nsuzaka.nagano.jp\nsuzu.ishikawa.jp\nsuzuka.mie.jp\nsuzuki\nsv\nsv.it\nsvalbard.no\nsveio.no\nsvelvik.no\nsvizzera.museum\nsvn-repos.de\nswatch\nsweden.museum\nsweetpepper.org\nswidnica.pl\nswidnik.pl\nswiebodzin.pl\nswinoujscie.pl\nswiss\nsx\nsx.cn\nsy\nsydney\nsydney.museum\nsykkylven.no\nsyncloud.it\nsyno-ds.de\nsynology-diskstation.de\nsynology-ds.de\nsynology.me\nsystems\nsytes.net\nsz\nszczecin.pl\nszczytno.pl\nszex.hu\nszkola.pl\nt.bg\nt.se\nt3l3p0rt.net\nta.it\ntaa.it\ntab\ntabayama.yamanashi.jp\ntabitorder.co.il\ntabuse.yamaguchi.jp\ntachiarai.fukuoka.jp\ntachikawa.tokyo.jp\ntadaoka.osaka.jp\ntado.mie.jp\ntadotsu.kagawa.jp\ntagajo.miyagi.jp\ntagami.niigata.jp\ntagawa.fukuoka.jp\ntahara.aichi.jp\ntaifun-dns.de\ntaiji.wakayama.jp\ntaiki.hokkaido.jp\ntaiki.mie.jp\ntainai.niigata.jp\ntaipei\ntaira.toyama.jp\ntaishi.hyogo.jp\ntaishi.osaka.jp\ntaishin.fukushima.jp\ntaito.tokyo.jp\ntaiwa.miyagi.jp\ntajimi.gifu.jp\ntajiri.osaka.jp\ntaka.hyogo.jp\ntakagi.nagano.jp\ntakahagi.ibaraki.jp\ntakahama.aichi.jp\ntakahama.fukui.jp\ntakaharu.miyazaki.jp\ntakahashi.okayama.jp\ntakahata.yamagata.jp\ntakaishi.osaka.jp\ntakamatsu.kagawa.jp\ntakamori.kumamoto.jp\ntakamori.nagano.jp\ntakanabe.miyazaki.jp\ntakanezawa.tochigi.jp\ntakaoka.toyama.jp\ntakarazuka.hyogo.jp\ntakasago.hyogo.jp\ntakasaki.gunma.jp\ntakashima.shiga.jp\ntakasu.hokkaido.jp\ntakata.fukuoka.jp\ntakatori.nara.jp\ntakatsuki.osaka.jp\ntakatsuki.shiga.jp\ntakayama.gifu.jp\ntakayama.gunma.jp\ntakayama.nagano.jp\ntakazaki.miyazaki.jp\ntakehara.hiroshima.jp\ntaketa.oita.jp\ntaketomi.okinawa.jp\ntaki.mie.jp\ntakikawa.hokkaido.jp\ntakino.hyogo.jp\ntakinoue.hokkaido.jp\ntakko.aomori.jp\ntako.chiba.jp\ntaku.saga.jp\ntalk\ntama.tokyo.jp\ntamakawa.fukushima.jp\ntamaki.mie.jp\ntamamura.gunma.jp\ntamano.okayama.jp\ntamatsukuri.ibaraki.jp\ntamayu.shimane.jp\ntamba.hyogo.jp\ntana.no\ntanabe.kyoto.jp\ntanabe.wakayama.jp\ntanagura.fukushima.jp\ntananger.no\ntank.museum\ntanohata.iwate.jp\ntaobao\ntara.saga.jp\ntarama.okinawa.jp\ntaranto.it\ntarget\ntargi.pl\ntarnobrzeg.pl\ntarui.gifu.jp\ntarumizu.kagoshima.jp\ntas.au\ntas.edu.au\ntas.gov.au\ntashkent.su\ntatamotors\ntatar\ntatebayashi.gunma.jp\ntateshina.nagano.jp\ntateyama.chiba.jp\ntateyama.toyama.jp\ntatsuno.hyogo.jp\ntatsuno.nagano.jp\ntattoo\ntawaramoto.nara.jp\ntax\ntaxi\ntaxi.br\ntc\ntc.br\ntci\ntcm.museum\ntcp4.me\ntd\ntdk\nte.it\nte.ua\nteaches-yoga.com\nteam\ntec.br\ntec.mi.us\ntec.ve\ntech\ntech.orange\ntechnology\ntechnology.museum\ntecnologia.bo\ntel\ntel.tr\ntele.amune.org\ntelebit.app\ntelebit.io\ntelekommunikation.museum\ntelevision.museum\ntemasek\ntemp-dns.com\ntempio-olbia.it\ntempioolbia.it\ntempurl.host\ntendo.yamagata.jp\ntenei.fukushima.jp\ntenkawa.nara.jp\ntennis\ntenri.nara.jp\nteo.br\nteramo.it\ntermez.su\nterni.it\nternopil.ua\nteshikaga.hokkaido.jp\ntest-iserv.de\ntest.ru\ntest.tj\nteva\ntexas.museum\ntextile.museum\ntf\ntg\ntgory.pl\nth\nthd\nthe.br\ntheater\ntheater.museum\ntheatre\ntheshop.jp\ntheworkpc.com\nthick.jp\nthingdustdata.com\nthruhere.net\ntiaa\ntickets\ntickets.io\ntienda\ntiffany\ntime.museum\ntime.no\ntimekeeping.museum\ntingvoll.no\ntinn.no\ntips\ntires\ntirol\ntj\ntj.cn\ntjeldsund.no\ntjmaxx\ntjome.no\ntjx\ntk\ntkmaxx\ntksat.bo\ntl\ntlon.network\ntm\ntm.cy\ntm.dz\ntm.fr\ntm.hu\ntm.km\ntm.mc\ntm.mg\ntm.no\ntm.pl\ntm.ro\ntm.se\ntm.za\ntmall\ntmp.br\ntn\ntn.it\ntn.oxa.cloud\ntn.us\nto\nto.gov.br\nto.gt\nto.it\nto.leg.br\nto.md\ntoba.mie.jp\ntobe.ehime.jp\ntobetsu.hokkaido.jp\ntobishima.aichi.jp\ntochigi.jp\ntochigi.tochigi.jp\ntochio.niigata.jp\ntoda.saitama.jp\ntoday\ntoei.aichi.jp\ntoga.toyama.jp\ntogakushi.nagano.jp\ntogane.chiba.jp\ntogitsu.nagasaki.jp\ntogliatti.su\ntogo.aichi.jp\ntogura.nagano.jp\ntohma.hokkaido.jp\ntohnosho.chiba.jp\ntoho.fukuoka.jp\ntokai.aichi.jp\ntokai.ibaraki.jp\ntokamachi.niigata.jp\ntokashiki.okinawa.jp\ntoki.gifu.jp\ntokigawa.saitama.jp\ntokke.no\ntokoname.aichi.jp\ntokorozawa.saitama.jp\ntokushima.jp\ntokushima.tokushima.jp\ntokuyama.yamaguchi.jp\ntokyo\ntokyo.jp\ntolga.no\ntomakomai.hokkaido.jp\ntomari.hokkaido.jp\ntome.miyagi.jp\ntomi.nagano.jp\ntomigusuku.okinawa.jp\ntomika.gifu.jp\ntomioka.gunma.jp\ntomisato.chiba.jp\ntomiya.miyagi.jp\ntomobe.ibaraki.jp\ntonaki.okinawa.jp\ntonami.toyama.jp\ntondabayashi.osaka.jp\ntone.ibaraki.jp\ntonkotsu.jp\ntono.iwate.jp\ntonosho.kagawa.jp\ntonsberg.no\ntoolforge.org\ntools\ntoon.ehime.jp\ntop\ntopology.museum\ntorahime.shiga.jp\ntoray\ntoride.ibaraki.jp\ntorino.it\ntorino.museum\ntorproject.net\ntorsken.no\ntos.it\ntosa.kochi.jp\ntosashimizu.kochi.jp\ntoscana.it\ntoshiba\ntoshima.tokyo.jp\ntosu.saga.jp\ntotal\ntottori.jp\ntottori.tottori.jp\ntouch.museum\ntourism.bj\ntourism.pl\ntourism.tn\ntours\ntowada.aomori.jp\ntown\ntown.museum\ntownnews-staging.com\ntoya.hokkaido.jp\ntoyako.hokkaido.jp\ntoyama.jp\ntoyama.toyama.jp\ntoyo.kochi.jp\ntoyoake.aichi.jp\ntoyohashi.aichi.jp\ntoyokawa.aichi.jp\ntoyonaka.osaka.jp\ntoyone.aichi.jp\ntoyono.osaka.jp\ntoyooka.hyogo.jp\ntoyosato.shiga.jp\ntoyota\ntoyota.aichi.jp\ntoyota.yamaguchi.jp\ntoyotomi.hokkaido.jp\ntoyotsu.fukuoka.jp\ntoyoura.hokkaido.jp\ntoys\ntozawa.yamagata.jp\ntozsde.hu\ntp.it\ntr\ntr.eu.org\ntr.it\ntr.no\ntra.kp\ntrade\ntrader.aero\ntrading\ntrading.aero\ntraeumtgerade.de\ntrafficplex.cloud\ntrainer.aero\ntraining\ntrana.no\ntranby.no\ntrani-andria-barletta.it\ntrani-barletta-andria.it\ntraniandriabarletta.it\ntranibarlettaandria.it\ntranoy.no\ntranslate.goog\ntranslated.page\ntransport.museum\ntransporte.bo\ntrapani.it\ntravel\ntravel.in\ntravel.pl\ntravel.tt\ntravelchannel\ntravelers\ntravelersinsurance\ntrd.br\n";

/// Normal suffixes, part 9 of 10.
pub const PSL_MAIN_8: &'static str = "tree.museum\ntrentin-sud-tirol.it\ntrentin-sudtirol.it\ntrentin-sued-tirol.it\ntrentin-suedtirol.it\ntrentino-a-adige.it\ntrentino-aadige.it\ntrentino-alto-adige.it\ntrentino-altoadige.it\ntrentino-s-tirol.it\ntrentino-stirol.it\ntrentino-sud-tirol.it\ntrentino-sudtirol.it\ntrentino-sued-tirol.it\ntrentino-suedtirol.it\ntrentino.it\ntrentinoa-adige.it\ntrentinoaadige.it\ntrentinoalto-adige.it\ntrentinoaltoadige.it\ntrentinos-tirol.it\ntrentinostirol.it\ntrentinosud-tirol.it\ntrentinosudtirol.it\ntrentinosued-tirol.it\ntrentinosuedtirol.it\ntrentinsud-tirol.it\ntrentinsudtirol.it\ntrentinsued-tirol.it\ntrentinsuedtirol.it\ntrento.it\ntreviso.it\ntrieste.it\ntroandin.no\ntrogstad.no\ntroitsk.su\ntrolley.museum\ntromsa.no\ntromso.no\ntrondheim.no\ntrust\ntrust.museum\ntrustee.museum\ntrv\ntry-snowplow.com\ntrycloudflare.com\ntrysil.no\nts.it\nts.net\ntselinograd.su\ntsk.tr\ntsu.mie.jp\ntsubame.niigata.jp\ntsubata.ishikawa.jp\ntsubetsu.hokkaido.jp\ntsuchiura.ibaraki.jp\ntsuga.tochigi.jp\ntsugaru.aomori.jp\ntsuiki.fukuoka.jp\ntsukigata.hokkaido.jp\ntsukiyono.gunma.jp\ntsukuba.ibaraki.jp\ntsukui.kanagawa.jp\ntsukumi.oita.jp\ntsumagoi.gunma.jp\ntsunan.niigata.jp\ntsuno.kochi.jp\ntsuno.miyazaki.jp\ntsuru.yamanashi.jp\ntsuruga.fukui.jp\ntsurugashima.saitama.jp\ntsurugi.ishikawa.jp\ntsuruoka.yamagata.jp\ntsuruta.aomori.jp\ntsushima.aichi.jp\ntsushima.nagasaki.jp\ntsuwano.shimane.jp\ntsuyama.okayama.jp\ntt\ntt.im\ntube\ntui\ntula.su\ntuleap-partners.com\ntunes\ntunk.org\ntur.ar\ntur.br\nturek.pl\nturin.it\nturystyka.pl\ntuscany.it\ntushu\ntuva.su\ntuxfamily.org\ntv\ntv.bb\ntv.bo\ntv.br\ntv.im\ntv.in\ntv.it\ntv.kg\ntv.na\ntv.sd\ntv.tr\ntv.tz\ntvedestrand.no\ntvs\ntw\ntw.cn\ntwmail.cc\ntwmail.net\ntwmail.org\ntx.us\ntychy.pl\ntydal.no\ntynset.no\ntypedream.app\ntysfjord.no\ntysnes.no\ntysvar.no\ntz\nu.bg\nu.channelsdvr.net\nu.se\nu2-local.xnbay.com\nu2.xnbay.com\nua\nua.rs\nubank\nube.yamaguchi.jp\nuber.space\nubs\nuchihara.ibaraki.jp\nuchiko.ehime.jp\nuchinada.ishikawa.jp\nuchinomi.kagawa.jp\nud.it\nuda.nara.jp\nudi.br\nudine.it\nudono.mie.jp\nueda.nagano.jp\nueno.gunma.jp\nuenohara.yamanashi.jp\nufcfan.org\nug\nug.gov.pl\nugim.gov.pl\nuhren.museum\nui.nabu.casa\nuji.kyoto.jp\nujiie.tochigi.jp\nujitawara.kyoto.jp\nuk\nuk.com\nuk.eu.org\nuk.in\nuk.kg\nuk.net\nuk.oxa.cloud\nuk.primetel.cloud\nuk.reclaim.cloud\nuk0.bigv.io\nuki.kumamoto.jp\nukiha.fukuoka.jp\nullensaker.no\nullensvang.no\nulm.museum\nulsan.kr\nulvik.no\num.gov.pl\numaji.kochi.jp\numb.it\numbria.it\numi.fukuoka.jp\numig.gov.pl\nunazuki.toyama.jp\nunder.jp\nundersea.museum\nuni5.net\nunicloud.pl\nunicom\nunion.aero\nuniv.bj\nuniv.sn\nuniversity\nuniversity.museum\nunjarga.no\nunnan.shimane.jp\nuno\nunusualperson.com\nunzen.nagasaki.jp\nuol\nuonuma.niigata.jp\nuozu.toyama.jp\nup.in\nupaas.kazteleport.kz\nupli.io\nupow.gov.pl\nupper.jp\nuppo.gov.pl\nups\nurakawa.hokkaido.jp\nurasoe.okinawa.jp\nurausu.hokkaido.jp\nurawa.saitama.jp\nurayasu.chiba.jp\nurbino-pesaro.it\nurbinopesaro.it\nureshino.mie.jp\nuri.arpa\nurl.tw\nurn.arpa\nurown.cloud\nuruma.okinawa.jp\nuryu.hokkaido.jp\nus\nus-1.evennode.com\nus-2.evennode.com\nus-3.evennode.com\nus-4.evennode.com\nus-east-1.amazonaws.com\nus-east-1.elasticbeanstalk.com\nus-east-2.elasticbeanstalk.com\nus-gov-west-1.elasticbeanstalk.com\nus-west-1.elasticbeanstalk.com\nus-west-2.elasticbeanstalk.com\nus.ax\nus.com\nus.eu.org\nus.gov.pl\nus.in\nus.kg\nus.na\nus.org\nus.platform.sh\nus.reclaim.cloud\nusa.museum\nusa.oita.jp\nusantiques.museum\nusarts.museum\nuscountryestate.museum\nusculture.museum\nusdecorativearts.museum\nuser.aseinet.ne.jp\nuser.party.eus\nuser.srcf.net\nusercontent.jp\nusers.scale.virtualcloud.com.br\nusgarden.museum\nushiku.ibaraki.jp\nushistory.museum\nushuaia.museum\nuslivinghistory.museum\nusr.cloud.muni.cz\nustka.pl\nusui.fukuoka.jp\nusuki.oita.jp\nut.us\nutah.museum\nutashinai.hokkaido.jp\nutazas.hu\nutazu.kagawa.jp\nuto.kumamoto.jp\nutsira.no\nutsunomiya.tochigi.jp\nutwente.io\nuvic.museum\nuw.gov.pl\nuwajima.ehime.jp\nuwu.ai\nuy\nuy.com\nuz\nuz.ua\nuzhgorod.ua\nuzs.gov.pl\nv-info.info\nv.bg\nv.ua\nva\nva.it\nva.no\nva.us\nvaapste.no\nvacations\nvadso.no\nvaga.no\nvagan.no\nvagsoy.no\nvaksdal.no\nval-d-aosta.it\nval-daosta.it\nvald-aosta.it\nvaldaosta.it\nvaler.hedmark.no\nvaler.ostfold.no\nvalle-aosta.it\nvalle-d-aosta.it\nvalle-daosta.it\nvalle.no\nvalleaosta.it\nvalled-aosta.it\nvalledaosta.it\nvallee-aoste.it\nvallee-d-aoste.it\nvalleeaoste.it\nvalleedaoste.it\nvalley.museum\nvana\nvang.no\nvanguard\nvantaa.museum\nvanylven.no\nvao.it\nvapor.cloud\nvaporcloud.io\nvardo.no\nvarese.it\nvarggat.no\nvaroy.no\nvb.it\nvc\nvc.it\nvda.it\nve\nve.it\nvefsn.no\nvega.no\nvegarshei.no\nvegas\nvelvet.jp\nven.it\nveneto.it\nvenezia.it\nvenice.it\nvennesla.no\nventures\nverbania.it\nvercel.app\nvercel.dev\nvercelli.it\nverdal.no\nverisign\nverona.it\nverran.no\nversailles.museum\nverse.jp\nversicherung\nversus.jp\nvestby.no\nvestnes.no\nvestre-slidre.no\nvestre-toten.no\nvestvagoy.no\nvet\nvet.br\nveterinaire.fr\nveterinaire.km\nvevelstad.no\nvf.no\nvfs.cloud9.af-south-1.amazonaws.com\nvfs.cloud9.ap-east-1.amazonaws.com\nvfs.cloud9.ap-northeast-1.amazonaws.com\nvfs.cloud9.ap-northeast-2.amazonaws.com\nvfs.cloud9.ap-northeast-3.amazonaws.com\nvfs.cloud9.ap-south-1.amazonaws.com\nvfs.cloud9.ap-southeast-1.amazonaws.com\nvfs.cloud9.ap-southeast-2.amazonaws.com\nvfs.cloud9.ca-central-1.amazonaws.com\nvfs.cloud9.eu-central-1.amazonaws.com\nvfs.cloud9.eu-north-1.amazonaws.com\nvfs.cloud9.eu-south-1.amazonaws.com\nvfs.cloud9.eu-west-1.amazonaws.com\nvfs.cloud9.eu-west-2.amazonaws.com\nvfs.cloud9.eu-west-3.amazonaws.com\nvfs.cloud9.me-south-1.amazonaws.com\nvfs.cloud9.sa-east-1.amazonaws.com\nvfs.cloud9.us-east-1.amazonaws.com\nvfs.cloud9.us-east-2.amazonaws.com\nvfs.cloud9.us-west-1.amazonaws.com\nvfs.cloud9.us-west-2.amazonaws.com\nvg\nvgs.no\nvi\nvi.it\nvi.us\nviajes\nvibo-valentia.it\nvibovalentia.it\nvic.au\nvic.edu.au\nvic.gov.au\nvicenza.it\nvideo\nvideo.hu\nvig\nvik.no\nviking\nviking.museum\nvikna.no\nvillage.museum\nvillas\nvin\nvindafjord.no\nvinnica.ua\nvinnytsia.ua\nvip\nvip.jelastic.cloud\nvipsinaapp.com\nvirgin\nvirginia.museum\nvirtual-user.de\nvirtual.museum\nvirtualserver.io\nvirtualuser.de\nvirtuel.museum\nvisa\nvision\nviterbo.it\nviva\nvivian.jp\nvivo\nvix.br\nvlaanderen\nvlaanderen.museum\nvladikavkaz.ru\nvladikavkaz.su\nvladimir.ru\nvladimir.su\nvlog.br\nvm.bytemark.co.uk\nvn\nvn.ua\nvoagat.no\nvodka\nvolda.no\nvolkenkunde.museum\nvolkswagen\nvologda.su\nvolvo\nvolyn.ua\nvoorloper.cloud\nvoss.no\nvossevangen.no\nvote\nvoting\nvoto\nvoyage\nvp4.me\nvpndns.net\nvpnplus.to\nvps-host.net\nvps.mcdir.ru\nvr.it\nvs.it\nvs.mythic-beasts.com\nvt.it\nvt.us\nvu\nvuelos\nvv.it\nvxl.sh\nw.bg\nw.se\nwa.au\nwa.edu.au\nwa.gov.au\nwa.us\nwada.nagano.jp\nwafflecell.com\nwajiki.tokushima.jp\nwajima.ishikawa.jp\nwakasa.fukui.jp\nwakasa.tottori.jp\nwakayama.jp\nwakayama.wakayama.jp\nwake.okayama.jp\nwakkanai.hokkaido.jp\nwakuya.miyagi.jp\nwalbrzych.pl\nwales\nwales.museum\nwallonie.museum\nwalmart\nwalter\nwang\nwanggou\nwanouchi.gifu.jp\nwar.museum\nwarabi.saitama.jp\nwarmia.pl\nwarszawa.pl\nwashingtondc.museum\nwashtenaw.mi.us\nwassamu.hokkaido.jp\nwatarai.mie.jp\nwatari.miyagi.jp\nwatch\nwatch-and-clock.museum\nwatchandclock.museum\nwatches\nwatson.jp\nwaw.pl\nwazuka.kyoto.jp\nwe.bs\nwe.tc\nweather\nweatherchannel\nweb.app\nweb.bo\nweb.co\nweb.do\nweb.gu\nweb.id\nweb.in\nweb.lk\nweb.nf\nweb.ni\nweb.pk\nweb.tj\nweb.tr\nweb.ve\nweb.za\nwebcam\nweber\nwebhop.biz\nwebhop.info\nwebhop.me\nwebhop.net\nwebhop.org\nwebhosting.be\nweblike.jp\nwebredirect.org\nwebsite\nwebsite.yandexcloud.net\nwebspace.rocks\nwebthings.io\nwebview-assets.cloud9.af-south-1.amazonaws.com\nwebview-assets.cloud9.ap-east-1.amazonaws.com\nwebview-assets.cloud9.ap-northeast-1.amazonaws.com\nwebview-assets.cloud9.ap-northeast-2.amazonaws.com\nwebview-assets.cloud9.ap-northeast-3.amazonaws.com\nwebview-assets.cloud9.ap-south-1.amazonaws.com\nwebview-assets.cloud9.ap-southeast-1.amazonaws.com\nwebview-assets.cloud9.ap-southeast-2.amazonaws.com\nwebview-assets.cloud9.ca-central-1.amazonaws.com\nwebview-assets.cloud9.eu-central-1.amazonaws.com\nwebview-assets.cloud9.eu-north-1.amazonaws.com\nwebview-assets.cloud9.eu-south-1.amazonaws.com\nwebview-assets.cloud9.eu-west-1.amazonaws.com\nwebview-assets.cloud9.eu-west-2.amazonaws.com\nwebview-assets.cloud9.eu-west-3.amazonaws.com\nwebview-assets.cloud9.me-south-1.amazonaws.com\nwebview-assets.cloud9.sa-east-1.amazonaws.com\nwebview-assets.cloud9.us-east-1.amazonaws.com\nwebview-assets.cloud9.us-east-2.amazonaws.com\nwebview-assets.cloud9.us-west-1.amazonaws.com\nwebview-assets.cloud9.us-west-2.amazonaws.com\nwedding\nwedeploy.io\nwedeploy.me\nwedeploy.sh\nweeklylottery.org.uk\nwegrow.pl\nweibo\nweir\nwellbeingzone.co.uk\nwellbeingzone.eu\nwest1-us.cloudjiffy.net\nwestern.museum\nwesteurope.azurestaticapps.net\nwestfalen.museum\nwestus2.azurestaticapps.net\nwf\nwhaling.museum\nwhitesnow.jp\nwhm.fr-par.scw.cloud\nwhm.nl-ams.scw.cloud\nwhoswho\nwi.us\nwielun.pl\nwien\nwien.funkfeuer.at\nwif.gov.pl\nwiih.gov.pl\nwiki\nwiki.bo\nwiki.br\nwildlife.museum\nwilliamhill\nwilliamsburg.museum\nwin\nwinb.gov.pl\nwindmill.museum\nwindows\nwine\nwinners\nwios.gov.pl\nwitd.gov.pl\nwithgoogle.com\nwithyoutube.com\nwiw.gov.pl\nwixsite.com\nwlocl.pl\nwloclawek.pl\nwmcloud.org\nwme\nwmflabs.org\nwnext.app\nwodzislaw.pl\nwolomin.pl\nwolterskluwer\nwoltlab-demo.com\nwoodside\nwork\nworkers.dev\nworkinggroup.aero\nworkisboring.com\nworks\nworks.aero\nworkshop.museum\nworld\nworse-than.tv\nwow\nwpdevcloud.com\nwpenginepowered.com\nwphostedmail.com\nwpmucdn.com\nwpmudev.host\nwritesthisblog.com\nwroc.pl\nwroclaw.pl\nws\nws.na\nwsa.gov.pl\nwskr.gov.pl\nwtc\nwtf\nwuoz.gov.pl\nwv.us\nwww.ro\nwy.us\nwzmiuw.gov.pl\nx.bg\nx.mythic-beasts.com\nx.se\nx443.pw\nxbox\nxen.prgmr.com\nxerox\nxfinity\nxihuan\nxin\nxj.cn\nxn--0trq7p7nn.jp\nxn--11b4c3d\nxn--12c1fe0br.xn--o3cw4h\nxn--12cfi8ixb8l.xn--o3cw4h\nxn--12co0c3b4eva.xn--o3cw4h\nxn--1ck2e1b\nxn--1ctwo.jp\nxn--1lqs03n.jp\nxn--1lqs71d.jp\nxn--1qqw23a\nxn--2m4a15e.jp\nxn--2scrj9c\nxn--30rr7y\nxn--32vp30h.jp\nxn--3bst00m\nxn--3ds443g\nxn--3e0b707e\nxn--3hcrj9c\nxn--3pxu8k\nxn--41a.xn--p1acf\nxn--42c2d9a\nxn--45br5cyl\nxn--45brj9c\nxn--45q11c\nxn--4dbgdty6c.xn--4dbrk0ce\nxn--4dbrk0ce\nxn--4gbrim\nxn--4it168d.jp\nxn--4it797k.jp\nxn--4pvxs.jp\nxn--54b7fta0cc\nxn--55qw42g\nxn--55qx5d\nxn--55qx5d.cn\nxn--55qx5d.hk\nxn--55qx5d.xn--j6w193g\nxn--5dbhl8d.xn--4dbrk0ce\nxn--5js045d.jp\nxn--5rtp49c.jp\nxn--5rtq34k.jp\nxn--5su34j936bgsg\nxn--5tzm5g\nxn--6btw5a.jp\nxn--6frz82g\nxn--6orx2r.jp\nxn--6qq986b3xl\nxn--7t0a264c.jp\nxn--80aaa0cvac.xn--p1acf\nxn--80adxhks\nxn--80ao21a\nxn--80aqecdr1a\nxn--80asehdb\nxn--80aswg\nxn--80au.xn--90a3ac\nxn--8dbq2a.xn--4dbrk0ce\nxn--8ltr62k.jp\nxn--8pvr4u.jp\nxn--8y0a063a\nxn--90a1af.xn--p1acf\nxn--90a3ac\nxn--90ae\nxn--90ais\nxn--90amc.xn--p1acf\nxn--90azh.xn--90a3ac\nxn--9dbhblg6di.museum\nxn--9dbq2a\nxn--9et52u\nxn--9krt00a\nxn--andy-ira.no\nxn--aroport-bya.ci\nxn--asky-ira.no\nxn--aurskog-hland-jnb.no\nxn--avery-yua.no\nxn--b-5ga.nordland.no\nxn--b-5ga.telemark.no\nxn--b4w605ferd\nxn--balsan-sdtirol-nsb.it\nxn--bck1b9a5dre4c\nxn--bdddj-mrabd.no\nxn--bearalvhki-y4a.no\nxn--berlevg-jxa.no\nxn--bhcavuotna-s4a.no\nxn--bhccavuotna-k7a.no\nxn--bidr-5nac.no\nxn--bievt-0qa.no\nxn--bjarky-fya.no\nxn--bjddar-pta.no\nxn--blt-elab.no\nxn--bmlo-gra.no\nxn--bod-2na.no\nxn--bozen-sdtirol-2ob.it\nxn--brnny-wuac.no\nxn--brnnysund-m8ac.no\nxn--brum-voa.no\nxn--btsfjord-9za.no\nxn--bulsan-sdtirol-nsb.it\nxn--c1avg\nxn--c1avg.xn--90a3ac\nxn--c1avg.xn--p1acf\nxn--c2br7g\nxn--c3s14m.jp\nxn--cck2b3b\nxn--cckwcxetd\nxn--cesena-forl-mcb.it\nxn--cesenaforl-i8a.it\nxn--cg4bki\nxn--ciqpn.hk\nxn--clchc0ea0b2g2a9gcd\nxn--comunicaes-v6a2o.museum\nxn--correios-e-telecomunicaes-ghc29a.museum\nxn--czr694b\nxn--czrs0t\nxn--czru2d\nxn--czrw28b.tw\nxn--d1acj3b\nxn--d1alf\nxn--d1at.xn--90a3ac\nxn--d5qv7z876c.jp\nxn--davvenjrga-y4a.no\nxn--djrs72d6uy.jp\nxn--djty4k.jp\nxn--dnna-gra.no\nxn--drbak-wua.no\nxn--dyry-ira.no\nxn--e1a4c\nxn--eckvdtc9d\nxn--efvn9s.jp\nxn--efvy88h\nxn--ehqz56n.jp\nxn--elqq16h.jp\nxn--eveni-0qa01ga.no\nxn--f6qx53a.jp\nxn--fct429k\nxn--fhbei\nxn--finny-yua.no\nxn--fiq228c5hs\nxn--fiq64b\nxn--fiqs8s\nxn--fiqz9s\nxn--fjord-lra.no\nxn--fjq720a\nxn--fl-zia.no\nxn--flor-jra.no\nxn--flw351e\nxn--forl-cesena-fcb.it\nxn--forlcesena-c8a.it\nxn--fpcrj9c3d\nxn--frde-gra.no\nxn--frna-woa.no\nxn--frya-hra.no\nxn--fzc2c9e2c\nxn--fzys8d69uvgm\nxn--g2xx48c\nxn--gckr3f0f\nxn--gecrj9c\nxn--ggaviika-8ya47h.no\nxn--gildeskl-g0a.no\nxn--givuotna-8ya.no\nxn--gjvik-wua.no\nxn--gk3at1e\nxn--gls-elac.no\nxn--gmq050i.hk\nxn--gmqw5a.hk\nxn--gmqw5a.xn--j6w193g\nxn--gnstigbestellen-zvb.de\nxn--gnstigliefern-wob.de\nxn--h-2fa.no\nxn--h1aegh.museum\nxn--h1ahn.xn--p1acf\n";

/// Normal suffixes, part 10 of 10.
pub const PSL_MAIN_9: &'static str = "xn--h1aliz.xn--p1acf\nxn--h2breg3eve\nxn--h2brj9c\nxn--h2brj9c8c\nxn--h3cuzk1di.xn--o3cw4h\nxn--hbmer-xqa.no\nxn--hcesuolo-7ya35b.no\nxn--hebda8b.xn--4dbrk0ce\nxn--hery-ira.nordland.no\nxn--hery-ira.xn--mre-og-romsdal-qqb.no\nxn--hgebostad-g3a.no\nxn--hkkinen-5wa.fi\nxn--hmmrfeasta-s4ac.no\nxn--hnefoss-q1a.no\nxn--hobl-ira.no\nxn--holtlen-hxa.no\nxn--hpmir-xqa.no\nxn--hxt814e\nxn--hyanger-q1a.no\nxn--hylandet-54a.no\nxn--i1b6b1a6a2e\nxn--imr513n\nxn--indery-fya.no\nxn--io0a7i\nxn--io0a7i.cn\nxn--io0a7i.hk\nxn--j1adp.xn--p1acf\nxn--j1aef\nxn--j1aef.xn--p1acf\nxn--j1ael8b.xn--p1acf\nxn--j1amh\nxn--j6w193g\nxn--jlq480n2rg\nxn--jlster-bya.no\nxn--jrpeland-54a.no\nxn--jvr189m\nxn--k7yn95e.jp\nxn--karmy-yua.no\nxn--kbrq7o.jp\nxn--kcrx77d1x4a\nxn--kfjord-iua.no\nxn--klbu-woa.no\nxn--klt787d.jp\nxn--kltp7d.jp\nxn--kltx9a.jp\nxn--klty5x.jp\nxn--koluokta-7ya57h.no\nxn--kprw13d\nxn--kpry57d\nxn--kput3i\nxn--krager-gya.no\nxn--kranghke-b0a.no\nxn--krdsherad-m8a.no\nxn--krehamn-dxa.no\nxn--krjohka-hwab49j.no\nxn--ksnes-uua.no\nxn--kvfjord-nxa.no\nxn--kvitsy-fya.no\nxn--kvnangen-k0a.no\nxn--l-1fa.no\nxn--l1acc\nxn--laheadju-7ya.no\nxn--langevg-jxa.no\nxn--lcvr32d.hk\nxn--ldingen-q1a.no\nxn--leagaviika-52b.no\nxn--lesund-hua.no\nxn--lgbbat1ad8j\nxn--lgrd-poac.no\nxn--lhppi-xqa.no\nxn--linds-pra.no\nxn--lns-qla.museum\nxn--loabt-0qa.no\nxn--lrdal-sra.no\nxn--lrenskog-54a.no\nxn--lt-liac.no\nxn--lten-gra.no\nxn--lury-ira.no\nxn--m3ch0j3a.xn--o3cw4h\nxn--mely-ira.no\nxn--merker-kua.no\nxn--mgb2ddes\nxn--mgb9awbf\nxn--mgba3a3ejt\nxn--mgba3a4f16a\nxn--mgba3a4f16a.ir\nxn--mgba3a4fra\nxn--mgba3a4fra.ir\nxn--mgba7c0bbn0a\nxn--mgbaakc7dvf\nxn--mgbaam7a8h\nxn--mgbab2bd\nxn--mgbah1a3hjkrd\nxn--mgbai9a5eva00b\nxn--mgbai9azgqp6j\nxn--mgbayh7gpa\nxn--mgbbh1a\nxn--mgbbh1a71e\nxn--mgbc0a9azcg\nxn--mgbca7dzdo\nxn--mgbcpq6gpa1a\nxn--mgberp4a5d4a87g\nxn--mgberp4a5d4ar\nxn--mgbgu82a\nxn--mgbi4ecexp\nxn--mgbpl2fh\nxn--mgbqly7c0a67fbc\nxn--mgbqly7cvafr\nxn--mgbt3dhd\nxn--mgbtf8fl\nxn--mgbtx2b\nxn--mgbx4cd0ab\nxn--mix082f\nxn--mix891f\nxn--mjndalen-64a.no\nxn--mk0axi.hk\nxn--mk1bu44c\nxn--mkru45i.jp\nxn--mlatvuopmi-s4a.no\nxn--mli-tla.no\nxn--mlselv-iua.no\nxn--moreke-jua.no\nxn--mori-qsa.nz\nxn--mosjen-eya.no\nxn--mot-tla.no\nxn--msy-ula0h.no\nxn--mtta-vrjjat-k7af.no\nxn--muost-0qa.no\nxn--mxtq1m\nxn--mxtq1m.hk\nxn--mxtq1m.xn--j6w193g\nxn--ngbc5azd\nxn--ngbe9e0a\nxn--ngbrx\nxn--nit225k.jp\nxn--nmesjevuemie-tcba.no\nxn--nnx388a\nxn--node\nxn--nqv7f\nxn--nqv7fs00ema\nxn--nry-yla5g.no\nxn--ntso0iqx3a.jp\nxn--ntsq17g.jp\nxn--nttery-byae.no\nxn--nvuotna-hwa.no\nxn--nyqy26a\nxn--o1ac.xn--90a3ac\nxn--o1ach.xn--90a3ac\nxn--o3cw4h\nxn--o3cyx2a.xn--o3cw4h\nxn--od0alg.cn\nxn--od0alg.hk\nxn--od0alg.xn--j6w193g\nxn--od0aq3b.hk\nxn--ogbpf8fl\nxn--oppegrd-ixa.no\nxn--ostery-fya.no\nxn--osyro-wua.no\nxn--otu796d\nxn--p1acf\nxn--p1ai\nxn--pgbs0dh\nxn--porsgu-sta26f.no\nxn--pssu33l.jp\nxn--pssy2u\nxn--q7ce6a\nxn--q9jyb4c\nxn--qcka1pmc\nxn--qqqt11m.jp\nxn--qxa6a\nxn--qxam\nxn--rady-ira.no\nxn--rdal-poa.no\nxn--rde-ula.no\nxn--rdy-0nab.no\nxn--rennesy-v1a.no\nxn--rhkkervju-01af.no\nxn--rholt-mra.no\nxn--rhqv96g\nxn--rht27z.jp\nxn--rht3d.jp\nxn--rht61e.jp\nxn--risa-5na.no\nxn--risr-ira.no\nxn--rland-uua.no\nxn--rlingen-mxa.no\nxn--rmskog-bya.no\nxn--rny31h.jp\nxn--rovu88b\nxn--rros-gra.no\nxn--rskog-uua.no\nxn--rst-0na.no\nxn--rsta-fra.no\nxn--rvc1e0am3e\nxn--ryken-vua.no\nxn--ryrvik-bya.no\nxn--s-1fa.no\nxn--s9brj9c\nxn--sandnessjen-ogb.no\nxn--sandy-yua.no\nxn--sdtirol-n2a.it\nxn--seral-lra.no\nxn--ses554g\nxn--sgne-gra.no\nxn--skierv-uta.no\nxn--skjervy-v1a.no\nxn--skjk-soa.no\nxn--sknit-yqa.no\nxn--sknland-fxa.no\nxn--slat-5na.no\nxn--slt-elab.no\nxn--smla-hra.no\nxn--smna-gra.no\nxn--snase-nra.no\nxn--sndre-land-0cb.no\nxn--snes-poa.no\nxn--snsa-roa.no\nxn--sr-aurdal-l8a.no\nxn--sr-fron-q1a.no\nxn--sr-odal-q1a.no\nxn--sr-varanger-ggb.no\nxn--srfold-bya.no\nxn--srreisa-q1a.no\nxn--srum-gra.no\nxn--stjrdal-s1a.no\nxn--stjrdalshalsen-sqb.no\nxn--stre-toten-zcb.no\nxn--t60b56a\nxn--tckwe\nxn--tiq49xqyj\nxn--tjme-hra.no\nxn--tn0ag.hk\nxn--tnsberg-q1a.no\nxn--tor131o.jp\nxn--trany-yua.no\nxn--trentin-sd-tirol-rzb.it\nxn--trentin-sdtirol-7vb.it\nxn--trentino-sd-tirol-c3b.it\nxn--trentino-sdtirol-szb.it\nxn--trentinosd-tirol-rzb.it\nxn--trentinosdtirol-7vb.it\nxn--trentinsd-tirol-6vb.it\nxn--trentinsdtirol-nsb.it\nxn--trgstad-r1a.no\nxn--trna-woa.no\nxn--troms-zua.no\nxn--tysvr-vra.no\nxn--uc0atv.hk\nxn--uc0atv.tw\nxn--uc0atv.xn--j6w193g\nxn--uc0ay4a.hk\nxn--uist22h.jp\nxn--uisz3g.jp\nxn--unjrga-rta.no\nxn--unup4y\nxn--uuwu58a.jp\nxn--vads-jra.no\nxn--valle-aoste-ebb.it\nxn--valle-d-aoste-ehb.it\nxn--valleaoste-e7a.it\nxn--valledaoste-ebb.it\nxn--vard-jra.no\nxn--vegrshei-c0a.no\nxn--vermgensberater-ctb\nxn--vermgensberatung-pwb\nxn--vestvgy-ixa6o.no\nxn--vg-yiab.no\nxn--vgan-qoa.no\nxn--vgsy-qoa0j.no\nxn--vgu402c.jp\nxn--vhquv\nxn--vler-qoa.hedmark.no\nxn--vler-qoa.xn--stfold-9xa.no\nxn--vre-eiker-k8a.no\nxn--vrggt-xqad.no\nxn--vry-yla5g.no\nxn--vuq861b\nxn--w4r85el8fhu5dnra\nxn--w4rs40l\nxn--wcvs22d.hk\nxn--wcvs22d.xn--j6w193g\nxn--wgbh1c\nxn--wgbl6a\nxn--xhq521b\nxn--xkc2al3hye2a\nxn--xkc2dl3a5ee0h\nxn--y9a3aq\nxn--yer-zna.no\nxn--yfro4i67o\nxn--ygarden-p1a.no\nxn--ygbi2ammx\nxn--ystre-slidre-ujb.no\nxn--zbx025d.jp\nxn--zf0ao64a.tw\nxn--zf0avx.hk\nxn--zfr164b\nxnbay.com\nxs4all.space\nxx.gl\nxxx\nxy.ax\nxyz\nxz.cn\ny.bg\ny.se\nyabu.hyogo.jp\nyabuki.fukushima.jp\nyachimata.chiba.jp\nyachiyo.chiba.jp\nyachiyo.ibaraki.jp\nyachts\nyaese.okinawa.jp\nyahaba.iwate.jp\nyahiko.niigata.jp\nyahoo\nyaita.tochigi.jp\nyaizu.shizuoka.jp\nyakage.okayama.jp\nyakumo.hokkaido.jp\nyakumo.shimane.jp\nyali.mythic-beasts.com\nyalta.ua\nyamada.fukuoka.jp\nyamada.iwate.jp\nyamada.toyama.jp\nyamaga.kumamoto.jp\nyamagata.gifu.jp\nyamagata.ibaraki.jp\nyamagata.jp\nyamagata.nagano.jp\nyamagata.yamagata.jp\nyamaguchi.jp\nyamakita.kanagawa.jp\nyamamoto.miyagi.jp\nyamanakako.yamanashi.jp\nyamanashi.jp\nyamanashi.yamanashi.jp\nyamanobe.yamagata.jp\nyamanouchi.nagano.jp\nyamashina.kyoto.jp\nyamato.fukushima.jp\nyamato.kanagawa.jp\nyamato.kumamoto.jp\nyamatokoriyama.nara.jp\nyamatotakada.nara.jp\nyamatsuri.fukushima.jp\nyamaxun\nyamazoe.nara.jp\nyame.fukuoka.jp\nyanagawa.fukuoka.jp\nyanaizu.fukushima.jp\nyandex\nyandexcloud.net\nyao.osaka.jp\nyaotsu.gifu.jp\nyasaka.nagano.jp\nyashio.saitama.jp\nyashiro.hyogo.jp\nyasu.shiga.jp\nyasuda.kochi.jp\nyasugi.shimane.jp\nyasuoka.nagano.jp\nyatomi.aichi.jp\nyatsuka.shimane.jp\nyatsushiro.kumamoto.jp\nyawara.ibaraki.jp\nyawata.kyoto.jp\nyawatahama.ehime.jp\nyazu.tottori.jp\nybo.faith\nybo.party\nybo.review\nybo.science\nybo.trade\nye\nyk.ca\nyn.cn\nynh.fr\nyodobashi\nyoga\nyoichi.hokkaido.jp\nyoita.niigata.jp\nyoka.hyogo.jp\nyokaichiba.chiba.jp\nyokawa.hyogo.jp\nyokkaichi.mie.jp\nyokohama\nyokoshibahikari.chiba.jp\nyokosuka.kanagawa.jp\nyokote.akita.jp\nyokoze.saitama.jp\nyolasite.com\nyombo.me\nyomitan.okinawa.jp\nyonabaru.okinawa.jp\nyonago.tottori.jp\nyonaguni.okinawa.jp\nyonezawa.yamagata.jp\nyono.saitama.jp\nyorii.saitama.jp\nyork.museum\nyorkshire.museum\nyoro.gifu.jp\nyosemite.museum\nyoshida.saitama.jp\nyoshida.shizuoka.jp\nyoshikawa.saitama.jp\nyoshimi.saitama.jp\nyoshino.nara.jp\nyoshinogari.saga.jp\nyoshioka.gunma.jp\nyotsukaido.chiba.jp\nyou\nyouth.museum\nyoutube\nyt\nyuasa.wakayama.jp\nyufu.oita.jp\nyugawa.fukushima.jp\nyugawara.kanagawa.jp\nyuki.ibaraki.jp\nyukuhashi.fukuoka.jp\nyun\nyura.wakayama.jp\nyurihonjo.akita.jp\nyusuhara.kochi.jp\nyusui.kagoshima.jp\nyuu.yamaguchi.jp\nyuza.yamagata.jp\nyuzawa.niigata.jp\nz.bg\nz.se\nza.bz\nza.com\nza.net\nza.org\nzachpomor.pl\nzagan.pl\nzakopane.pl\nzama.kanagawa.jp\nzamami.okinawa.jp\nzao.miyagi.jp\nzaporizhzhe.ua\nzaporizhzhia.ua\nzappos\nzapto.org\nzapto.xyz\nzara\nzarow.pl\nzentsuji.kagawa.jp\nzero\nzgora.pl\nzgorzelec.pl\nzhitomir.ua\nzhytomyr.ua\nzip\nzj.cn\nzlg.br\nzm\nzombie.jp\nzone\nzoological.museum\nzoology.museum\nzp.gov.pl\nzp.ua\nzt.ua\nzuerich\nzushi.kanagawa.jp\nzw\n";

/// Wildcard suffixes: the suffix itself plus any single label before it.
pub const PSL_WILD: &'static str = "0emm.com\nadvisor.ws\nalces.network\nawdev.ca\nazurecontainer.io\nbackyards.banzaicloud.io\nbanzai.cloud\nbd\nbeget.app\nbuild.run\nbuilder.code.com\nbzz.dapps.earth\nck\ncloud.metacentrum.cz\ncloudera.site\ncns.joyent.com\ncode.run\ncompute-1.amazonaws.com\ncompute.amazonaws.com\ncompute.amazonaws.com.cn\ncompute.estate\ncryptonomic.net\ncustomer-oci.com\ndapps.earth\ndatabase.run\ndev-builder.code.com\ndev.adobeaemcloud.com\ndevcdnaccesso.com\ndeveloper.app\ndigitaloceanspaces.com\ndiher.solutions\ndweb.link\nelb.amazonaws.com\nelb.amazonaws.com.cn\ner\nex.futurecms.at\nex.ortsinfo.at\nfirenet.ch\nfk\nfrusky.de\nfuturecms.at\ngateway.dev\nhosting.myjino.ru\nhosting.ovh.net\nin.futurecms.at\njm\nkawasaki.jp\nkh\nkitakyushu.jp\nkobe.jp\nkunden.ortsinfo.at\nlanding.myjino.ru\nlcl.dev\nlclstage.dev\nlinodeobjects.com\nmagentosite.cloud\nmigration.run\nmm\nmoonscale.io\nnagoya.jp\nnodebalancer.linode.com\nnom.br\nnorthflank.app\nnp\noci.customer-oci.com\nocp.customer-oci.com\nocs.customer-oci.com\non-acorn.io\non-k3s.io\non-rancher.cloud\non-rio.io\notap.co\nowo.codes\npaywhirl.com\npg\nplatformsh.site\nquipelements.com\nr.appspot.com\nrss.my.id\ns5y.io\nsapporo.jp\nsch.uk\nsendai.jp\nsensiosite.cloud\nspectrum.myjino.ru\nstatics.cloud\nstg-builder.code.com\nstg.dev\nstgstage.dev\nstolos.io\nsvc.firenet.ch\nsys.qcx.io\ntelebit.xyz\ntransurl.be\ntransurl.eu\ntransurl.nl\ntriton.zone\ntst.site\nuberspace.de\nuser.fm\nuser.localcert.dev\nusercontent.goog\nvps.myjino.ru\nvultrobjects.com\nwebhare.dev\nwebpaas.ovh.net\nyokohama.jp\n";

/// Labels that are exempt from a wildcard suffix.
pub const PSL_EXCEPTION_LABELS: &'static str = "www\ncity\ncity\ncity\ncity\ncity\ncity\ncity\n";

/// The wildcard suffixes the exempt labels belong to.
pub const PSL_EXCEPTION_KEYS: &'static str = "ck\nkawasaki.jp\nkitakyushu.jp\nkobe.jp\nnagoya.jp\nsapporo.jp\nsendai.jp\nyokohama.jp\n";

} // verus!
